//! Access rights and the privilege mask they imply.
//!
//! A handle is opened for reading, for writing, or for both.  The platform
//! is asked for the minimal privilege set those rights imply: a read-only
//! handle must not request any write-capable privilege.

use vstd::prelude::*;

use crate::errors::OpenError;

verus! {

/// Privilege to operate on the target's address space (required by the
/// platform alongside the write privilege for remote writes).
pub const PROCESS_VM_OPERATION: u32 = 0x0008;

/// Privilege to read the target's address space.
pub const PROCESS_VM_READ: u32 = 0x0010;

/// Privilege to write the target's address space.
pub const PROCESS_VM_WRITE: u32 = 0x0020;

/// The capabilities requested when opening a process handle.
#[derive(Clone, Copy, PartialEq, Eq, Structural, Debug)]
pub struct AccessRights {
    /// May the holder read the target's memory?
    pub read: bool,
    /// May the holder write the target's memory?
    pub write: bool,
}

impl AccessRights {
    /// A request must ask for at least one capability; a handle that could
    /// do nothing is invalid.
    pub open spec fn valid(self) -> bool {
        self.read || self.write
    }

    /// The minimal privilege mask implied by the rights; zero for an
    /// invalid request, which never reaches the platform.
    pub open spec fn mask_spec(self) -> u32 {
        if self.read && self.write {
            PROCESS_VM_OPERATION | PROCESS_VM_READ | PROCESS_VM_WRITE
        } else if self.read {
            PROCESS_VM_READ
        } else if self.write {
            PROCESS_VM_OPERATION | PROCESS_VM_WRITE
        } else {
            0
        }
    }
}

/// The privilege mask to request from the platform for `rights`, or
/// `NoAccessRequested` when neither capability was asked for.
pub fn access_mask(rights: AccessRights) -> (r: Result<u32, OpenError>)
    ensures
        rights.valid() ==> r == Ok::<u32, OpenError>(rights.mask_spec()),
        !rights.valid() ==> r == Err::<u32, OpenError>(OpenError::NoAccessRequested),
{
    if rights.read && rights.write {
        Ok(PROCESS_VM_OPERATION | PROCESS_VM_READ | PROCESS_VM_WRITE)
    } else if rights.read {
        Ok(PROCESS_VM_READ)
    } else if rights.write {
        Ok(PROCESS_VM_OPERATION | PROCESS_VM_WRITE)
    } else {
        Err(OpenError::NoAccessRequested)
    }
}

/// A read-only request carries no write-capable privilege: neither the
/// write bit nor the operation bit is set in its mask.
pub proof fn lemma_read_only_mask_minimal()
    ensures
        (AccessRights { read: true, write: false }).mask_spec() & PROCESS_VM_WRITE == 0,
        (AccessRights { read: true, write: false }).mask_spec() & PROCESS_VM_OPERATION == 0,
{
    assert(0x0010u32 & 0x0020u32 == 0) by (bit_vector);
    assert(0x0010u32 & 0x0008u32 == 0) by (bit_vector);
}

/// A write-only request carries no read privilege.
pub proof fn lemma_write_only_mask_minimal()
    ensures
        (AccessRights { read: false, write: true }).mask_spec() & PROCESS_VM_READ == 0,
{
    assert((0x0008u32 | 0x0020u32) & 0x0010u32 == 0) by (bit_vector);
}

} // verus!
