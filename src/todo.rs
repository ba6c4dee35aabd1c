use vstd::prelude::*;

verus! {

/// A point in time as stored with a row: whole seconds since the Unix epoch and
/// the nanoseconds past that second.
#[derive(Clone, Copy, Debug, PartialEq, Eq, Structural)]
pub struct Timestamp {
    pub secs: i64,
    pub nanos: u32,
}

impl Timestamp {
    /// `self` is the same instant as `other` or a later one.
    pub open spec fn spec_no_earlier_than(self, other: Timestamp) -> bool {
        self.secs > other.secs || (self.secs == other.secs && self.nanos >= other.nanos)
    }

    pub fn new(secs: i64, nanos: u32) -> (r: Timestamp)
        ensures
            r.secs == secs,
            r.nanos == nanos,
    {
        Timestamp { secs, nanos }
    }

    pub fn no_earlier_than(&self, other: &Timestamp) -> (r: bool)
        ensures
            r == self.spec_no_earlier_than(*other),
    {
        self.secs > other.secs || (self.secs == other.secs && self.nanos >= other.nanos)
    }
}

/// Inbound write model for creating a todo: only the body is supplied.
pub struct CreateTodo {
    body: String,
}

impl View for CreateTodo {
    type V = Seq<char>;

    closed spec fn view(&self) -> Seq<char> {
        self.body@
    }
}

impl CreateTodo {
    pub fn new(body: String) -> (r: CreateTodo)
        ensures
            r@ == body@,
    {
        CreateTodo { body }
    }

    pub fn body(&self) -> (r: &str)
        ensures
            r@ == self@,
    {
        self.body.as_str()
    }
}

/// What an update carries: the full replacement of a todo's mutable fields.
pub struct UpdateView {
    pub body: Seq<char>,
    pub completed: bool,
}

/// Inbound write model for updating a todo: both mutable fields, always together.
pub struct UpdateTodo {
    body: String,
    completed: bool,
}

impl View for UpdateTodo {
    type V = UpdateView;

    closed spec fn view(&self) -> UpdateView {
        UpdateView { body: self.body@, completed: self.completed }
    }
}

impl UpdateTodo {
    pub fn new(body: String, completed: bool) -> (r: UpdateTodo)
        ensures
            r@.body == body@,
            r@.completed == completed,
    {
        UpdateTodo { body, completed }
    }

    pub fn body(&self) -> (r: &str)
        ensures
            r@ == self@.body,
    {
        self.body.as_str()
    }

    pub fn completed(&self) -> (r: bool)
        ensures
            r == self@.completed,
    {
        self.completed
    }
}

/// The fields of a stored todo, as mathematical values.
pub struct TodoView {
    pub id: i64,
    pub body: Seq<char>,
    pub completed: bool,
    pub created_at: Timestamp,
}

/// A persisted todo item.
pub struct Todo {
    id: i64,
    body: String,
    completed: bool,
    created_at: Timestamp,
}

impl View for Todo {
    type V = TodoView;

    closed spec fn view(&self) -> TodoView {
        TodoView { id: self.id, body: self.body@, completed: self.completed, created_at: self.created_at }
    }
}

impl Todo {
    /// Builds a todo from the fields of a row read back from the store.
    pub fn new(id: i64, body: String, completed: bool, created_at: Timestamp) -> (r: Todo)
        ensures
            r@ == (TodoView { id, body: body@, completed, created_at }),
    {
        Todo { id, body, completed, created_at }
    }

    pub fn id(&self) -> (r: i64)
        ensures
            r == self@.id,
    {
        self.id
    }

    pub fn body(&self) -> (r: &str)
        ensures
            r@ == self@.body,
    {
        self.body.as_str()
    }

    pub fn completed(&self) -> (r: bool)
        ensures
            r == self@.completed,
    {
        self.completed
    }

    pub fn created_at(&self) -> (r: Timestamp)
        ensures
            r == self@.created_at,
    {
        self.created_at
    }
}

impl Clone for Todo {
    fn clone(&self) -> (r: Todo)
        ensures
            r@ == self@,
    {
        Todo { id: self.id, body: self.body.clone(), completed: self.completed, created_at: self.created_at }
    }
}

} // verus!
