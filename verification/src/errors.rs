//! The error taxonomy of the crate.
//!
//! Each operation fails with its own type, and every variant names one
//! distinct cause, so that a caller can tell a missing process from a broken
//! listing, or a right that was never granted from a handle that is no
//! longer open.

use vstd::prelude::*;

verus! {

/// The process listing mechanism itself was unusable: the process table
/// could not be read at all.  A process whose name merely failed to resolve
/// is skipped during enumeration and never raises this error.
#[derive(Debug, Clone, PartialEq, Eq)]
pub struct EnumError {
    /// What the platform reported about the failure.
    pub message: String,
}

/// Why no process handle could be produced for a requested name.
#[derive(Debug, Clone, PartialEq, Eq)]
pub enum FindError {
    /// Enumeration succeeded but no listed process bears the requested name.
    NotFound,
    /// Enumeration itself failed; the underlying error is carried so that a
    /// broken listing is never mistaken for an absent process.
    Enumeration(EnumError),
}

/// Why a handle could not be opened.
#[derive(Debug, Clone, PartialEq, Eq)]
pub enum OpenError {
    /// Neither reading nor writing was requested; a handle that can do
    /// nothing is refused outright, before the platform is consulted.
    NoAccessRequested,
    /// The caller's operating-system identity may not inspect or modify the
    /// target; retrying cannot help.
    InsufficientPrivilege(String),
    /// The target exited between enumeration and open; re-enumerating may
    /// find it again.
    TargetVanished(String),
    /// The platform ran out of handle resources; closing other handles may
    /// help.
    ResourceExhausted(String),
    /// Any other platform-reported failure.
    Failed(String),
}

/// Why a handle could not be closed.
#[derive(Debug, Clone, PartialEq, Eq)]
pub enum CloseError {
    /// The handle was already closed; the state is left as it was.
    AlreadyClosed,
    /// The platform refused to release the native resource.
    ReleaseFailed(String),
}

/// Why a memory access was rejected.
#[derive(Debug, Clone, PartialEq, Eq)]
pub enum AccessError {
    /// The handle is not open (never opened, or closed since).
    HandleClosed,
    /// The handle was opened without the right this access needs.
    RightMissing,
    /// The platform rejected the transfer: the range is unmapped or
    /// protected in the target, or the target has exited.
    Failed(String),
}

} // verus!
