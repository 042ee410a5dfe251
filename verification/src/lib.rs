//! Protection-aware container management for a tiling window manager.
//!
//! The library models the window manager's layout tree, locates the focused
//! container, reads and builds protection markers, and decides which IPC
//! commands an invocation must issue: marking, unmarking, or a guarded kill
//! that spares protected windows. All decision logic is verified; the IPC
//! transport and notification display live outside the library.
use vstd::prelude::*;

pub mod commands;
pub mod kill;
pub mod marker;
pub mod nonce;
pub mod numfmt;
pub mod state;
pub mod tree;

verus! {

/// The failures the library itself can report.
///
/// Transport-level failures (connecting to the window manager, running a
/// command, showing a notification) belong to the callers that perform them.
#[derive(PartialEq, Eq, Structural, Clone, Copy, Debug)]
pub enum ProtectError {
    /// No node in the queried tree was focused.
    FocusNotFound,
    /// The requested operation is not one of kill, lock, unlock, toggle.
    InvalidOperation,
    /// The system clock reported a time before the Unix epoch, so no
    /// marker nonce could be produced.
    TimeError,
}

impl ProtectError {
    /// A human-readable description of the failure.
    pub fn message(&self) -> (s: &'static str)
        ensures
            *self == ProtectError::FocusNotFound ==> s@ == "Focused node not found"@,
            *self == ProtectError::InvalidOperation ==> s@ == "Unrecognized operation"@,
            *self == ProtectError::TimeError ==> s@ == "System time is before the Unix epoch"@,
    {
        match self {
            ProtectError::FocusNotFound => "Focused node not found",
            ProtectError::InvalidOperation => "Unrecognized operation",
            ProtectError::TimeError => "System time is before the Unix epoch",
        }
    }
}

} // verus!
