//! Process discovery and remote memory access.
//!
//! The crate locates a running process by name, models the handle that
//! grants access to its address space, and decides which memory transfers
//! that handle permits.  Everything the operating system itself must do --
//! walking the process table, opening a native handle, copying bytes across
//! address spaces -- happens outside this crate; callers perform those
//! steps and hand the outcomes back as plain values.  Every rule about
//! rights, handle lifetime and transfer accounting is verified here.

mod enumerate;
mod errors;
mod memory;
mod process;
mod rights;

pub use enumerate::{
    collect_processes, collected, lemma_enumeration_complete, parse_pid, resolve_module_name,
    resolve_name, trimmed, utf16_lossy_of, EnumEntry,
};
pub use errors::{AccessError, CloseError, EnumError, FindError, OpenError};
pub use memory::{
    finish_transfer, lemma_closed_handle_rejects, lemma_round_trip_same_window,
    lemma_ungranted_right_rejects, lemma_zero_length_access, ReadWriteProcessMemory,
    TransferRequest,
};
pub use process::{
    find_among, find_process, lemma_close_idempotent, lemma_locate_finds_first_match,
    lemma_locate_not_found_iff, lemma_open_grants_requested, locate, OpenCloseProcess, Process,
};
pub use rights::{
    access_mask, lemma_read_only_mask_minimal, lemma_write_only_mask_minimal, AccessRights,
    PROCESS_VM_OPERATION, PROCESS_VM_READ, PROCESS_VM_WRITE,
};
