// A to-do list service: the route table, the write models and the stored todo,
// the statements of the repository and the mapping of store failures, and an
// in-memory store whose operations carry the repository's laws.
use vstd::prelude::*;

pub mod api;
pub mod error;
pub mod router;
pub mod store;
pub mod todo;

verus! {

} // verus!
