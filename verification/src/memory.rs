//! The remote memory accessor.
//!
//! Reads and writes against a target's address space go through its open
//! handle.  This module decides, from the handle's state and the requested
//! range, whether a transfer may happen at all and exactly what the
//! platform must then be asked to do; and it accounts for what the platform
//! answered.  The byte copy itself is the platform's: the caller performs
//! the described transfer and hands the outcome back.

use vstd::prelude::*;

use crate::errors::AccessError;
use crate::process::Process;

verus! {

/// One transfer the platform must perform: copy `length` bytes at
/// `address` in the address space of the process behind `os_ref`.
/// Addresses are opaque caller-supplied numbers; nothing beyond what the
/// platform itself checks is assumed about them.
#[derive(Clone, Copy, PartialEq, Eq, Structural, Debug)]
pub struct TransferRequest {
    /// The platform's reference to the target process.
    pub os_ref: u64,
    /// The base address in the target's address space.
    pub address: u64,
    /// How many bytes to copy.  Always positive: a zero-length access is
    /// answered directly and never reaches the platform.
    pub length: usize,
}

/// Deciding reads and writes against a process's address space.
///
/// Each method yields `Ok(None)` when the access succeeds with nothing to
/// transfer, `Ok(Some(t))` when the platform must now perform `t`, and an
/// [`AccessError`] when the handle's state forbids the access.  The
/// behaviour is pinned by the trait's specification functions.
pub trait ReadWriteProcessMemory: Sized {
    /// What `read` must answer for this state and range.
    spec fn read_spec(&self, address: u64, length: usize) -> Result<
        Option<TransferRequest>,
        AccessError,
    >;

    /// What `write` must answer for this state and range.
    spec fn write_spec(&self, address: u64, length: usize) -> Result<
        Option<TransferRequest>,
        AccessError,
    >;

    /// Decide a read of `length` bytes starting at `address` in the
    /// target's address space.
    fn read(&self, address: u64, length: usize) -> (r: Result<
        Option<TransferRequest>,
        AccessError,
    >)
        ensures
            r == self.read_spec(address, length),
    ;

    /// Decide a write of `length` bytes starting at `address` in the
    /// target's address space.
    fn write(&self, address: u64, length: usize) -> (r: Result<
        Option<TransferRequest>,
        AccessError,
    >)
        ensures
            r == self.write_spec(address, length),
    ;
}

impl ReadWriteProcessMemory for Process {
    open spec fn read_spec(&self, address: u64, length: usize) -> Result<
        Option<TransferRequest>,
        AccessError,
    > {
        if !self.is_open {
            Err(AccessError::HandleClosed)
        } else if !self.rights.read {
            Err(AccessError::RightMissing)
        } else if length == 0 {
            Ok(None)
        } else {
            Ok(Some(TransferRequest { os_ref: self.os_ref, address, length }))
        }
    }

    open spec fn write_spec(&self, address: u64, length: usize) -> Result<
        Option<TransferRequest>,
        AccessError,
    > {
        if !self.is_open {
            Err(AccessError::HandleClosed)
        } else if !self.rights.write {
            Err(AccessError::RightMissing)
        } else if length == 0 {
            Ok(None)
        } else {
            Ok(Some(TransferRequest { os_ref: self.os_ref, address, length }))
        }
    }

    fn read(&self, address: u64, length: usize) -> (r: Result<
        Option<TransferRequest>,
        AccessError,
    >) {
        if !self.is_open {
            Err(AccessError::HandleClosed)
        } else if !self.rights.read {
            Err(AccessError::RightMissing)
        } else if length == 0 {
            Ok(None)
        } else {
            Ok(Some(TransferRequest { os_ref: self.os_ref, address, length }))
        }
    }

    fn write(&self, address: u64, length: usize) -> (r: Result<
        Option<TransferRequest>,
        AccessError,
    >) {
        if !self.is_open {
            Err(AccessError::HandleClosed)
        } else if !self.rights.write {
            Err(AccessError::RightMissing)
        } else if length == 0 {
            Ok(None)
        } else {
            Ok(Some(TransferRequest { os_ref: self.os_ref, address, length }))
        }
    }
}

/// Account for what the platform answered to a performed transfer: the
/// byte count is passed through unchanged -- a short transfer is reported
/// as its count, never silently treated as complete -- and a platform
/// failure becomes an `AccessError`.
pub fn finish_transfer(outcome: Result<usize, String>) -> (r: Result<usize, AccessError>)
    ensures
        match outcome {
            Ok(n) => r == Ok::<usize, AccessError>(n),
            Err(m) => r == Err::<usize, AccessError>(AccessError::Failed(m)),
        },
{
    match outcome {
        Ok(n) => Ok(n),
        Err(m) => Err(AccessError::Failed(m)),
    }
}

/// A zero-length access on an open handle holding the needed right
/// succeeds with nothing transferred: the platform is never asked, so no
/// buffer is touched, and the reported count is zero.
pub proof fn lemma_zero_length_access(p: Process, address: u64)
    ensures
        p.is_open && p.rights.read ==> p.read_spec(address, 0) == Ok::<
            Option<TransferRequest>,
            AccessError,
        >(None),
        p.is_open && p.rights.write ==> p.write_spec(address, 0) == Ok::<
            Option<TransferRequest>,
            AccessError,
        >(None),
{
}

/// On a handle open for reading and writing, a write and a read of the
/// same range are both granted and describe one and the same transfer
/// window: same process reference, same base address, same byte count.
pub proof fn lemma_round_trip_same_window(p: Process, address: u64, length: usize)
    requires
        p.is_open,
        p.rights.read,
        p.rights.write,
        length > 0,
    ensures
        ({
            let t = TransferRequest { os_ref: p.os_ref, address, length };
            p.write_spec(address, length) == Ok::<Option<TransferRequest>, AccessError>(Some(t))
                && p.read_spec(address, length) == Ok::<Option<TransferRequest>, AccessError>(
                Some(t),
            )
        }),
{
}

/// An access on a handle that is not open fails with `HandleClosed`,
/// whatever the range: a handle is usable only between its open and its
/// close.
pub proof fn lemma_closed_handle_rejects(p: Process, address: u64, length: usize)
    requires
        !p.is_open,
    ensures
        p.read_spec(address, length) == Err::<Option<TransferRequest>, AccessError>(
            AccessError::HandleClosed,
        ),
        p.write_spec(address, length) == Err::<Option<TransferRequest>, AccessError>(
            AccessError::HandleClosed,
        ),
{
}

/// An access that needs a right the open never granted fails with
/// `RightMissing`: rights are fixed at open time, never silently widened.
pub proof fn lemma_ungranted_right_rejects(p: Process, address: u64, length: usize)
    requires
        p.is_open,
    ensures
        !p.rights.read ==> p.read_spec(address, length) == Err::<
            Option<TransferRequest>,
            AccessError,
        >(AccessError::RightMissing),
        !p.rights.write ==> p.write_spec(address, length) == Err::<
            Option<TransferRequest>,
            AccessError,
        >(AccessError::RightMissing),
{
}

} // verus!
