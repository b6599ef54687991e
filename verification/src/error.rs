//! The ways in which an operation on time entries can fail.

use vstd::prelude::*;

verus! {

/// The kind of cached object that a time entry refers to.
#[derive(Debug, Clone, Copy, PartialEq, Eq, Structural)]
pub enum ReferenceKind {
    Workspace,
    Project,
}

/// Why an operation failed.
#[derive(Debug, Clone, PartialEq, Eq)]
pub enum TogglError {
    /// The exchange with the service failed, or the service answered with a
    /// status other than success.
    TransportError(String),
    /// The service's answer does not have the expected shape.
    DeserializationError(String),
    /// A time entry names a workspace or a project that the reference cache
    /// does not hold.
    MissingReference { kind: ReferenceKind, id: i64 },
    /// The service knows no entry with the identifier that was addressed.
    NotFound,
}

} // verus!
