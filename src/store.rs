use crate::error::{Error, STATUS_INTERNAL_ERROR};
use crate::todo::{CreateTodo, Timestamp, Todo, TodoView, UpdateTodo, UpdateView};
use vstd::prelude::*;

verus! {

/// A stored row: the todo as clients see it, and the time it was last written.
pub struct RowView {
    pub todo: TodoView,
    pub updated_at: Timestamp,
}

/// The whole table: its rows in storage order, and the id the next insert receives.
pub struct StoreView {
    pub rows: Seq<RowView>,
    pub next_id: int,
}

/// Every id lies in `1 .. next_id`, and no two rows share an id.
pub open spec fn wf(s: StoreView) -> bool {
    &&& 1 <= s.next_id <= i64::MAX
    &&& forall|i: int| 0 <= i < s.rows.len() ==> 1 <= #[trigger] s.rows[i].todo.id < s.next_id
    &&& forall|i: int, j: int|
        0 <= i < s.rows.len() && 0 <= j < s.rows.len() && i != j ==> #[trigger] s.rows[i].todo.id
            != #[trigger] s.rows[j].todo.id
}

pub open spec fn holds_id(s: StoreView, id: i64) -> bool {
    exists|i: int| 0 <= i < s.rows.len() && #[trigger] s.rows[i].todo.id == id
}

/// Where the row with `id` stands, when there is one.
pub open spec fn pos(s: StoreView, id: i64) -> int {
    choose|i: int| 0 <= i < s.rows.len() && #[trigger] s.rows[i].todo.id == id
}

/// The todo with `id`, if a row has it.
pub open spec fn lookup(s: StoreView, id: i64) -> Option<TodoView> {
    if holds_id(s, id) {
        Some(s.rows[pos(s, id)].todo)
    } else {
        None
    }
}

/// The todos of all rows, in storage order.
pub open spec fn listed(s: StoreView) -> Seq<TodoView> {
    s.rows.map_values(|r: RowView| r.todo)
}

/// The todo that an insert of `body` at time `now` produces.
pub open spec fn created_todo(s: StoreView, body: Seq<char>, now: Timestamp) -> TodoView {
    TodoView { id: s.next_id as i64, body, completed: false, created_at: now }
}

/// The table after an insert of `body` at time `now`.
pub open spec fn created(s: StoreView, body: Seq<char>, now: Timestamp) -> StoreView {
    StoreView {
        rows: s.rows.push(RowView { todo: created_todo(s, body, now), updated_at: now }),
        next_id: s.next_id + 1,
    }
}

/// `t` with its mutable fields replaced by those of `u`.
pub open spec fn replaced_fields(t: TodoView, u: UpdateView) -> TodoView {
    TodoView { id: t.id, body: u.body, completed: u.completed, created_at: t.created_at }
}

/// The table after a full-field update of the row with `id`, if there is one.
pub open spec fn updated(s: StoreView, id: i64, u: UpdateView, now: Timestamp) -> StoreView {
    if holds_id(s, id) {
        StoreView {
            rows: s.rows.update(
                pos(s, id),
                RowView { todo: replaced_fields(s.rows[pos(s, id)].todo, u), updated_at: now },
            ),
            next_id: s.next_id,
        }
    } else {
        s
    }
}

/// The table after deleting the row with `id`, if there is one.
pub open spec fn deleted(s: StoreView, id: i64) -> StoreView {
    if holds_id(s, id) {
        StoreView { rows: s.rows.remove(pos(s, id)), next_id: s.next_id }
    } else {
        s
    }
}

/// In a well-formed table the row at `i` is the one that `pos` picks for its id.
pub proof fn lemma_pos_unique(s: StoreView, i: int)
    requires
        wf(s),
        0 <= i < s.rows.len(),
    ensures
        holds_id(s, s.rows[i].todo.id),
        pos(s, s.rows[i].todo.id) == i,
{
    let id = s.rows[i].todo.id;
    assert(0 <= i < s.rows.len() && s.rows[i].todo.id == id);
    let j = pos(s, id);
    if j != i {
        assert(s.rows[j].todo.id != s.rows[i].todo.id);
    }
}

/// A new todo has the body it was created with, is not completed, is stamped with
/// the time of its insert (so no earlier than any instant before it), and gets an
/// id that no row holds yet.
pub proof fn lemma_create_fields(s: StoreView, body: Seq<char>, start: Timestamp, now: Timestamp)
    requires
        wf(s),
        s.next_id < i64::MAX,
        now.spec_no_earlier_than(start),
    ensures
        created_todo(s, body, now).body == body,
        !created_todo(s, body, now).completed,
        created_todo(s, body, now).created_at.spec_no_earlier_than(start),
        created_todo(s, body, now).id >= 1,
        !holds_id(s, created_todo(s, body, now).id),
{
}

/// Reading the id that a create just assigned gives back exactly the created todo.
pub proof fn lemma_read_after_create(s: StoreView, body: Seq<char>, now: Timestamp)
    requires
        wf(s),
        s.next_id < i64::MAX,
    ensures
        wf(created(s, body, now)),
        lookup(created(s, body, now), created_todo(s, body, now).id) == Some(created_todo(s, body, now)),
{
    let s2 = created(s, body, now);
    assert(wf(s2));
    lemma_pos_unique(s2, s.rows.len() as int);
}

/// After `n` creates on an empty store, listing gives exactly the `n` created todos,
/// with distinct ids, and each created todo can be read back unchanged.
pub proof fn lemma_list_after_creates(states: Seq<StoreView>, bodies: Seq<Seq<char>>, times: Seq<Timestamp>)
    requires
        states.len() == bodies.len() + 1,
        times.len() == bodies.len(),
        wf(states[0]),
        states[0].rows.len() == 0,
        forall|k: int|
            0 <= k < bodies.len() ==> (#[trigger] states[k]).next_id < i64::MAX && states[k + 1] == created(
                states[k],
                bodies[k],
                times[k],
            ),
    ensures
        listed(states[bodies.len() as int]).len() == bodies.len(),
        forall|i: int, j: int|
            0 <= i < bodies.len() && 0 <= j < bodies.len() && i != j ==> #[trigger] listed(
                states[bodies.len() as int],
            )[i].id != #[trigger] listed(states[bodies.len() as int])[j].id,
        forall|k: int|
            0 <= k < bodies.len() ==> lookup(states[bodies.len() as int], #[trigger] created_todo(states[k], bodies[k], times[k]).id)
                == Some(created_todo(states[k], bodies[k], times[k])),
        forall|k: int|
            0 <= k < bodies.len() ==> #[trigger] listed(states[bodies.len() as int])[k] == created_todo(
                states[k],
                bodies[k],
                times[k],
            ),
{
    let n = bodies.len() as int;
    let last = states[n];
    assert forall|m: int| 0 <= m <= n implies wf(#[trigger] states[m]) && states[m].rows.len() == m && (forall|k: int|
        0 <= k < m ==> #[trigger] states[m].rows[k].todo == created_todo(states[k], bodies[k], times[k])) by {
        lemma_chain_prefix(states, bodies, times, m);
    }
    assert forall|k: int| 0 <= k < n implies lookup(last, #[trigger] created_todo(states[k], bodies[k], times[k]).id)
        == Some(created_todo(states[k], bodies[k], times[k])) by {
        assert(last.rows[k].todo == created_todo(states[k], bodies[k], times[k]));
        lemma_pos_unique(last, k);
    }
}

proof fn lemma_chain_prefix(states: Seq<StoreView>, bodies: Seq<Seq<char>>, times: Seq<Timestamp>, m: int)
    requires
        states.len() == bodies.len() + 1,
        times.len() == bodies.len(),
        wf(states[0]),
        states[0].rows.len() == 0,
        forall|k: int|
            0 <= k < bodies.len() ==> (#[trigger] states[k]).next_id < i64::MAX && states[k + 1] == created(
                states[k],
                bodies[k],
                times[k],
            ),
        0 <= m <= bodies.len(),
    ensures
        wf(states[m]),
        states[m].rows.len() == m,
        forall|k: int| 0 <= k < m ==> #[trigger] states[m].rows[k].todo == created_todo(states[k], bodies[k], times[k]),
    decreases m,
{
    if m > 0 {
        lemma_chain_prefix(states, bodies, times, m - 1);
        let p = states[m - 1];
        assert(states[m - 1].next_id < i64::MAX);
        assert(states[m] == created(p, bodies[m - 1], times[m - 1]));
        assert(wf(states[m]));
    }
}

/// An update of an existing id replaces body and completion, keeps id and creation
/// time, and reading that id afterwards gives the updated todo.
pub proof fn lemma_update_replaces(s: StoreView, id: i64, u: UpdateView, now: Timestamp)
    requires
        wf(s),
        holds_id(s, id),
    ensures
        wf(updated(s, id, u, now)),
        replaced_fields(lookup(s, id)->Some_0, u).id == id,
        replaced_fields(lookup(s, id)->Some_0, u).created_at == lookup(s, id)->Some_0.created_at,
        replaced_fields(lookup(s, id)->Some_0, u).body == u.body,
        replaced_fields(lookup(s, id)->Some_0, u).completed == u.completed,
        lookup(updated(s, id, u, now), id) == Some(replaced_fields(lookup(s, id)->Some_0, u)),
{
    let i = pos(s, id);
    let s2 = updated(s, id, u, now);
    assert(wf(s2));
    lemma_pos_unique(s2, i);
}

/// After deleting an id, reading it finds nothing.
pub proof fn lemma_read_after_delete(s: StoreView, id: i64)
    requires
        wf(s),
    ensures
        wf(deleted(s, id)),
        lookup(deleted(s, id), id) is None,
{
    let s2 = deleted(s, id);
    if holds_id(s, id) {
        let i = pos(s, id);
        assert(wf(s2));
        if holds_id(s2, id) {
            let j = pos(s2, id);
            if j < i {
                assert(s2.rows[j] == s.rows[j]);
            } else {
                assert(s2.rows[j] == s.rows[j + 1]);
            }
        }
    }
}

/// Deleting the same id twice leaves the store as deleting it once.
pub proof fn lemma_delete_idempotent(s: StoreView, id: i64)
    requires
        wf(s),
    ensures
        deleted(deleted(s, id), id) == deleted(s, id),
{
    lemma_read_after_delete(s, id);
}

struct StoredRow {
    todo: Todo,
    updated_at: Timestamp,
}

impl View for StoredRow {
    type V = RowView;

    closed spec fn view(&self) -> RowView {
        RowView { todo: self.todo@, updated_at: self.updated_at }
    }
}

/// A store for todos held in memory: it assigns ids from a counter that never
/// goes back, so a deleted id is not handed out again.
pub struct TodoStore {
    rows: Vec<StoredRow>,
    next_id: i64,
}

impl View for TodoStore {
    type V = StoreView;

    closed spec fn view(&self) -> StoreView {
        StoreView {
            rows: Seq::new(self.rows@.len(), |i: int| self.rows@[i]@),
            next_id: self.next_id as int,
        }
    }
}

/// Text of the failure reported when the id counter is exhausted.
pub const IDS_EXHAUSTED: &'static str = "no todo id is left to assign";

impl TodoStore {
    /// An empty table whose first insert receives id 1.
    pub fn new() -> (r: TodoStore)
        ensures
            wf(r@),
            r@.rows.len() == 0,
            r@.next_id == 1,
    {
        TodoStore { rows: Vec::new(), next_id: 1 }
    }

    fn position(&self, id: i64) -> (r: Option<usize>)
        requires
            wf(self@),
        ensures
            match r {
                Some(i) => i < self@.rows.len() && holds_id(self@, id) && pos(self@, id) == i,
                None => !holds_id(self@, id),
            },
    {
        let mut i: usize = 0;
        while i < self.rows.len()
            invariant
                wf(self@),
                i <= self.rows@.len(),
                forall|k: int| 0 <= k < i ==> #[trigger] self@.rows[k].todo.id != id,
            decreases self.rows@.len() - i,
        {
            if self.rows[i].todo.id() == id {
                proof {
                    lemma_pos_unique(self@, i as int);
                }
                return Some(i);
            }
            i = i + 1;
        }
        None
    }
}

impl Todo {
    /// Every todo in the store, in storage order; an empty store gives an empty list.
    pub fn list(store: &TodoStore) -> (r: Result<Vec<Todo>, Error>)
        requires
            wf(store@),
        ensures
            r is Ok,
            r->Ok_0@.len() == listed(store@).len(),
            forall|i: int| 0 <= i < listed(store@).len() ==> #[trigger] r->Ok_0@[i]@ == listed(store@)[i],
    {
        let mut out: Vec<Todo> = Vec::new();
        let mut i: usize = 0;
        while i < store.rows.len()
            invariant
                i <= store.rows@.len(),
                out@.len() == i,
                forall|k: int| 0 <= k < i ==> #[trigger] out@[k]@ == store.rows@[k].todo@,
            decreases store.rows@.len() - i,
        {
            out.push(store.rows[i].todo.clone());
            i = i + 1;
        }
        Ok(out)
    }

    /// The todo with `id`, or `NotFound` when no row has it.
    pub fn read(store: &TodoStore, id: i64) -> (r: Result<Todo, Error>)
        requires
            wf(store@),
        ensures
            match r {
                Ok(t) => lookup(store@, id) == Some(t@),
                Err(e) => lookup(store@, id) is None && e is NotFound,
            },
    {
        match store.position(id) {
            Some(i) => Ok(store.rows[i].todo.clone()),
            None => Err(Error::NotFound),
        }
    }

    /// Inserts a todo with the given body, not completed, created and last written
    /// at `now`, under the next id of the counter. Fails only when the counter is
    /// exhausted, leaving the store as it was.
    pub fn create(store: &mut TodoStore, new_todo: CreateTodo, now: Timestamp) -> (r: Result<Todo, Error>)
        requires
            wf(old(store)@),
        ensures
            wf(final(store)@),
            old(store)@.next_id < i64::MAX ==> r is Ok && r->Ok_0@ == created_todo(old(store)@, new_todo@, now)
                && final(store)@ == created(old(store)@, new_todo@, now),
            old(store)@.next_id == i64::MAX ==> r is Err && r->Err_0 is Sqlx && r->Err_0->Sqlx_0
                == STATUS_INTERNAL_ERROR && r->Err_0->Sqlx_1@ == IDS_EXHAUSTED@ && final(store)@ == old(store)@,
    {
        if store.next_id == i64::MAX {
            return Err(Error::Sqlx(STATUS_INTERNAL_ERROR, IDS_EXHAUSTED.to_owned()));
        }
        let ghost s0 = store@;
        let todo = Todo::new(store.next_id, new_todo.body().to_owned(), false, now);
        let out = todo.clone();
        store.rows.push(StoredRow { todo, updated_at: now });
        store.next_id = store.next_id + 1;
        assert(store@.rows =~= created(s0, new_todo@, now).rows);
        Ok(out)
    }

    /// Replaces the body and completion of the todo with `id`, marking the row as
    /// written at `now`; `NotFound`, with the store unchanged, when no row has it.
    pub fn update(store: &mut TodoStore, id: i64, updated_todo: UpdateTodo, now: Timestamp) -> (r: Result<Todo, Error>)
        requires
            wf(old(store)@),
        ensures
            wf(final(store)@),
            final(store)@ == updated(old(store)@, id, updated_todo@, now),
            match r {
                Ok(t) => lookup(old(store)@, id) is Some && t@ == replaced_fields(
                    lookup(old(store)@, id)->Some_0,
                    updated_todo@,
                ),
                Err(e) => lookup(old(store)@, id) is None && e is NotFound,
            },
    {
        match store.position(id) {
            Some(i) => {
                let ghost s0 = store@;
                let created_at = store.rows[i].todo.created_at();
                let todo = Todo::new(id, updated_todo.body().to_owned(), updated_todo.completed(), created_at);
                let out = todo.clone();
                store.rows.set(i, StoredRow { todo, updated_at: now });
                assert(store@.rows =~= updated(s0, id, updated_todo@, now).rows);
                Ok(out)
            },
            None => Err(Error::NotFound),
        }
    }

    /// Removes the todo with `id` if there is one; succeeds either way.
    pub fn delete(store: &mut TodoStore, id: i64) -> (r: Result<(), Error>)
        requires
            wf(old(store)@),
        ensures
            r is Ok,
            wf(final(store)@),
            final(store)@ == deleted(old(store)@, id),
    {
        match store.position(id) {
            Some(i) => {
                let ghost s0 = store@;
                store.rows.remove(i);
                assert(store@.rows =~= deleted(s0, id).rows);
                Ok(())
            },
            None => Ok(()),
        }
    }
}

} // verus!
