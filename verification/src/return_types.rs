//! The shapes in which the service answers.

use vstd::prelude::*;

use crate::timestamp::Timestamp;

verus! {

/// The envelope around everything that the service returns: the payload
/// stands under `data`.
#[derive(Debug, Clone, PartialEq, Eq)]
pub struct Return<T> {
    data: T,
}

impl<T> Return<T> {
    /// What the envelope holds.
    pub closed spec fn payload(&self) -> T {
        self.data
    }

    /// The envelope around `data`.
    pub fn new(data: T) -> (envelope: Return<T>)
        ensures
            envelope.payload() == data,
    {
        Return { data }
    }

    /// Looks at what the envelope holds.
    pub fn data(&self) -> (data: &T)
        ensures
            *data == self.payload(),
    {
        &self.data
    }

    /// Takes what the envelope holds out of it.
    pub fn into_data(self) -> (data: T)
        ensures
            data == self.payload(),
    {
        self.data
    }
}

/// What the service says of an entry that it has started or stopped.
#[derive(Debug, Clone, PartialEq, Eq)]
pub struct StartEntryReturnInner {
    pub id: i64,
    pub pid: i64,
    pub wid: i64,
    pub billable: bool,
    pub start: Timestamp,
    pub tags: Option<Vec<String>>,
    pub duration: i64,
    pub description: String,
}

/// The answer to a request that starts an entry.
pub type StartEntryReturn = Return<StartEntryReturnInner>;

/// The answer to a request that stops an entry: the same shape.
pub type StopEntryReturn = Return<StartEntryReturnInner>;

} // verus!
