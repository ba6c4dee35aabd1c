use crate::error::{Error, Response, STATUS_OK};
use crate::todo::{CreateTodo, UpdateTodo};
use vstd::prelude::*;

verus! {

/// A value bound to a `?` placeholder of a statement.
pub enum Bind {
    Int(i64),
    Text(String),
    Bool(bool),
}

/// The single parameterized statement that carries out each repository operation.
pub enum Statement {
    List,
    Read(i64),
    Create(String),
    Update(i64, String, bool),
    Delete(i64),
}

impl Statement {
    pub fn list() -> (r: Statement)
        ensures
            r is List,
    {
        Statement::List
    }

    pub fn read(id: i64) -> (r: Statement)
        ensures
            r == Statement::Read(id),
    {
        Statement::Read(id)
    }

    /// The insert of a new todo's body; the store fills in the other fields.
    pub fn create(new_todo: &CreateTodo) -> (r: Statement)
        ensures
            r is Create && r->Create_0@ == new_todo@,
    {
        Statement::Create(new_todo.body().to_owned())
    }

    /// The full-field update of the todo with `id`.
    pub fn update(id: i64, updated_todo: &UpdateTodo) -> (r: Statement)
        ensures
            r is Update && r->Update_0 == id && r->Update_1@ == updated_todo@.body && r->Update_2
                == updated_todo@.completed,
    {
        Statement::Update(id, updated_todo.body().to_owned(), updated_todo.completed())
    }

    pub fn delete(id: i64) -> (r: Statement)
        ensures
            r == Statement::Delete(id),
    {
        Statement::Delete(id)
    }

    /// The SQL text. Create and update return the written row in the same
    /// statement; update also stamps the row's update time.
    pub fn sql(&self) -> (r: &'static str)
        ensures
            r@ == (match *self {
                Statement::List => "select * from todos"@,
                Statement::Read(_) => "select * from todos where id = ?"@,
                Statement::Create(_) => "insert into todos (body) values (?) returning *"@,
                Statement::Update(
                    _,
                    _,
                    _,
                ) => "update todos set body = ?, completed = ?, updated_at = datetime('now') where id = ? returning *"@,
                Statement::Delete(_) => "delete from todos where id = ?"@,
            }),
    {
        match self {
            Statement::List => "select * from todos",
            Statement::Read(_) => "select * from todos where id = ?",
            Statement::Create(_) => "insert into todos (body) values (?) returning *",
            Statement::Update(
                _,
                _,
                _,
            ) => "update todos set body = ?, completed = ?, updated_at = datetime('now') where id = ? returning *",
            Statement::Delete(_) => "delete from todos where id = ?",
        }
    }

    /// The values for the placeholders, in the order in which they stand in `sql`.
    pub fn binds(&self) -> (r: Vec<Bind>)
        ensures
            match *self {
                Statement::List => r@.len() == 0,
                Statement::Read(id) | Statement::Delete(id) => r@.len() == 1 && r@[0] == Bind::Int(id),
                Statement::Create(body) => r@.len() == 1 && r@[0] is Text && r@[0]->Text_0@ == body@,
                Statement::Update(id, body, completed) => r@.len() == 3 && r@[0] is Text && r@[0]->Text_0@
                    == body@ && r@[1] == Bind::Bool(completed) && r@[2] == Bind::Int(id),
            },
    {
        let mut out: Vec<Bind> = Vec::new();
        match self {
            Statement::List => {},
            Statement::Read(id) => out.push(Bind::Int(*id)),
            Statement::Delete(id) => out.push(Bind::Int(*id)),
            Statement::Create(body) => out.push(Bind::Text(body.clone())),
            Statement::Update(id, body, completed) => {
                out.push(Bind::Text(body.clone()));
                out.push(Bind::Bool(*completed));
                out.push(Bind::Int(*id));
            },
        }
        out
    }

    /// Whether the statement yields rows: all but the delete, whose affected-row
    /// count is not inspected.
    pub fn returns_rows(&self) -> (r: bool)
        ensures
            r == !(*self is Delete),
    {
        !matches!(self, Statement::Delete(_))
    }

    /// Whether the statement must yield exactly one row: the point read and the
    /// writes that return the written row. Yielding none means no row matched.
    pub fn expects_one_row(&self) -> (r: bool)
        ensures
            r == (*self is Read || *self is Create || *self is Update),
    {
        matches!(self, Statement::Read(_) | Statement::Create(_) | Statement::Update(..))
    }
}

/// The liveness probe: always `200` with body `ok`, touching nothing.
pub fn alive() -> (r: Response)
    ensures
        r.status == STATUS_OK,
        r.body@ == "ok"@,
{
    Response { status: STATUS_OK, body: "ok".to_owned() }
}

/// The readiness probe, given the outcome of the store's connectivity check:
/// `200` with body `ok` when it succeeded, else the response of its error.
pub fn ping(check: Result<(), Error>) -> (r: Response)
    ensures
        match check {
            Ok(_) => r.status == STATUS_OK && r.body@ == "ok"@,
            Err(e) => r.status == e.spec_status() && r.body@ == e.spec_body(),
        },
{
    match check {
        Ok(_) => alive(),
        Err(e) => e.into_response(),
    }
}

} // verus!
