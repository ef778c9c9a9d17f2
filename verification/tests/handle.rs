use remote_memory::{
    access_mask, AccessError, AccessRights, CloseError, OpenCloseProcess, OpenError, Process,
    ReadWriteProcessMemory, TransferRequest, PROCESS_VM_OPERATION, PROCESS_VM_READ,
    PROCESS_VM_WRITE,
};

fn target() -> Process {
    Process::discovered(1234, "target".to_string())
}

#[test]
fn mask_requests_minimal_privileges() {
    assert_eq!(
        access_mask(AccessRights { read: true, write: true }),
        Ok(PROCESS_VM_OPERATION | PROCESS_VM_READ | PROCESS_VM_WRITE)
    );
    assert_eq!(
        access_mask(AccessRights { read: true, write: false }),
        Ok(PROCESS_VM_READ)
    );
    assert_eq!(
        access_mask(AccessRights { read: false, write: true }),
        Ok(PROCESS_VM_OPERATION | PROCESS_VM_WRITE)
    );
    assert_eq!(
        access_mask(AccessRights { read: false, write: false }),
        Err(OpenError::NoAccessRequested)
    );
}

#[test]
fn mask_exact_values() {
    assert_eq!(access_mask(AccessRights { read: true, write: true }), Ok(0x38));
    assert_eq!(access_mask(AccessRights { read: true, write: false }), Ok(0x10));
    assert_eq!(access_mask(AccessRights { read: false, write: true }), Ok(0x28));
}

#[test]
fn open_attaches_reference_and_rights() {
    let mut p = target();
    let r = p.open(true, false, Ok(77));
    assert_eq!(r, Ok(()));
    assert!(p.is_open);
    assert_eq!(p.os_ref, 77);
    assert_eq!(p.rights, AccessRights { read: true, write: false });
    assert_eq!(p.pid, 1234);
    assert_eq!(p.name, "target");
}

#[test]
fn open_with_no_rights_is_refused() {
    let mut p = target();
    let r = p.open(false, false, Ok(77));
    assert_eq!(r, Err(OpenError::NoAccessRequested));
    assert!(!p.is_open);
}

#[test]
fn open_passes_platform_refusal_through() {
    let mut p = target();
    let denied = OpenError::InsufficientPrivilege("access denied".to_string());
    let r = p.open(true, true, Err(denied.clone()));
    assert_eq!(r, Err(denied));
    assert!(!p.is_open);
}

#[test]
fn close_returns_the_reference_to_release() {
    let mut p = target();
    p.open(true, true, Ok(501)).unwrap();
    assert_eq!(p.close(), Ok(501));
    assert!(!p.is_open);
}

#[test]
fn close_twice_is_a_well_defined_error() {
    let mut p = target();
    p.open(true, true, Ok(501)).unwrap();
    assert_eq!(p.close(), Ok(501));
    assert_eq!(p.close(), Err(CloseError::AlreadyClosed));
    assert_eq!(p.close(), Err(CloseError::AlreadyClosed));
    assert!(!p.is_open);
}

#[test]
fn close_before_open_is_a_well_defined_error() {
    let mut p = target();
    assert_eq!(p.close(), Err(CloseError::AlreadyClosed));
}

#[test]
fn access_on_closed_handle_is_rejected() {
    let p = target();
    assert_eq!(p.read(0x4000, 8), Err(AccessError::HandleClosed));
    assert_eq!(p.write(0x4000, 8), Err(AccessError::HandleClosed));
}

#[test]
fn access_after_close_is_rejected() {
    let mut p = target();
    p.open(true, true, Ok(7)).unwrap();
    p.close().unwrap();
    assert_eq!(p.read(0x4000, 8), Err(AccessError::HandleClosed));
    assert_eq!(p.write(0x4000, 8), Err(AccessError::HandleClosed));
}

#[test]
fn ungranted_right_is_rejected_not_downgraded() {
    let mut reader = target();
    reader.open(true, false, Ok(7)).unwrap();
    assert!(matches!(reader.read(0x4000, 8), Ok(Some(_))));
    assert_eq!(reader.write(0x4000, 8), Err(AccessError::RightMissing));

    let mut writer = target();
    writer.open(false, true, Ok(7)).unwrap();
    assert!(matches!(writer.write(0x4000, 8), Ok(Some(_))));
    assert_eq!(writer.read(0x4000, 8), Err(AccessError::RightMissing));
}

#[test]
fn zero_length_access_succeeds_without_a_transfer() {
    let mut p = target();
    p.open(true, true, Ok(7)).unwrap();
    assert_eq!(p.read(0x4000, 0), Ok(None));
    assert_eq!(p.write(0x4000, 0), Ok(None));
}

#[test]
fn positive_length_access_describes_the_transfer() {
    let mut p = target();
    p.open(true, true, Ok(9)).unwrap();
    assert_eq!(
        p.read(0x4000, 16),
        Ok(Some(TransferRequest { os_ref: 9, address: 0x4000, length: 16 }))
    );
    assert_eq!(
        p.write(0x8000, 4),
        Ok(Some(TransferRequest { os_ref: 9, address: 0x8000, length: 4 }))
    );
}

#[test]
fn finish_transfer_reports_short_transfers_as_counts() {
    assert_eq!(remote_memory::finish_transfer(Ok(16)), Ok(16));
    assert_eq!(remote_memory::finish_transfer(Ok(3)), Ok(3));
    assert_eq!(remote_memory::finish_transfer(Ok(0)), Ok(0));
}

#[test]
fn finish_transfer_surfaces_platform_failure() {
    let r = remote_memory::finish_transfer(Err("range unmapped".to_string()));
    assert_eq!(r, Err(AccessError::Failed("range unmapped".to_string())));
}
