//! A client-side model of a time-tracking service.
//!
//! The service hands out time entries as flat records that name their
//! workspace and project by number only. This crate turns such records into
//! entries that hold the workspace and the project themselves, shared with the
//! session's reference cache, and builds the requests of the time-entry
//! operations. Every function is verified against its contract; the exchange
//! of bytes with the service is left to the caller.

pub mod cache;
pub mod decimal;
pub mod endpoint;
pub mod error;
pub mod project;
pub mod request;
pub mod return_types;
pub mod service;
pub mod time_entry;
pub mod timestamp;
pub mod workspace;

pub use crate::cache::ReferenceCache;
pub use crate::error::{ReferenceKind, TogglError};
pub use crate::project::Project;
pub use crate::request::Request;
pub use crate::return_types::{Return, StartEntryReturn, StartEntryReturnInner, StopEntryReturn};
pub use crate::service::{Step, TimeEntryExt};
pub use crate::time_entry::{TimeEntry, TimeEntryWire};
pub use crate::timestamp::Timestamp;
pub use crate::workspace::Workspace;
