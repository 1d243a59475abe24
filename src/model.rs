//! What the entity controllers hand back: results and the events that tell
//! the interface about changes.

use crate::error::Error;
use crate::value::Value;
use vstd::prelude::*;

verus! {

/// A named notification of a change, carrying the stored document.
#[derive(Debug)]
pub struct Event {
    pub name: String,
    pub payload: Value,
}

/// The outcome of a mutation: its result, and the event to emit, if any.
#[derive(Debug)]
pub struct Mutation<T> {
    pub result: Result<T, Error>,
    pub event: Option<Event>,
}

/// The identifier of a deleted record.
#[derive(Debug, Clone, PartialEq)]
pub struct ModelDeleteResultData {
    pub id: String,
}

impl ModelDeleteResultData {
    pub fn from(id: String) -> (r: ModelDeleteResultData)
        ensures
            r.id == id,
    {
        ModelDeleteResultData { id }
    }
}

} // verus!
