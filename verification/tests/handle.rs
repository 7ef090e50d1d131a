use win_memory::tlhelp32::{create_snapshot, module_snapshot, process_snapshot};
use win_memory::{Handle, MemoryError, OpenRequest, SnapshotRequest};

#[test]
fn zero_and_minus_one_are_invalid() {
    assert!(!Handle::new(0).is_valid());
    assert!(!Handle::new(-1).is_valid());
    assert!(Handle::new(1).is_valid());
    assert!(Handle::new(-2).is_valid());
    assert!(Handle::new(0x1F4).is_valid());
    assert_eq!(Handle::new(0x1F4).raw(), 0x1F4);
}

#[test]
fn requests_carry_the_access_masks() {
    assert_eq!(Handle::full_access(42), OpenRequest { pid: 42, access: 0x1F_FFFF });
    assert_eq!(Handle::read_write(42), OpenRequest { pid: 42, access: 0x30 });
}

#[test]
fn opened_needs_a_valid_handle() {
    assert_eq!(Handle::opened(Ok(0x80)), Ok(Handle::new(0x80)));
    assert_eq!(Handle::opened(Ok(0)), Err(MemoryError::GetHandleError));
    assert_eq!(Handle::opened(Ok(-1)), Err(MemoryError::GetHandleError));
    assert_eq!(Handle::opened(Err(5)), Err(MemoryError::GetHandleError));
}

#[test]
fn close_releases_once() {
    let mut handle = Handle::new(0x80);
    assert_eq!(handle.close(), Some(0x80));
    assert!(!handle.is_valid());
    assert_eq!(handle.raw(), -1);
    assert_eq!(handle.close(), None);
    assert_eq!(handle.close(), None);
    assert_eq!(handle.raw(), -1);
}

#[test]
fn close_of_invalid_handle_is_a_no_op() {
    let mut null = Handle::new(0);
    assert_eq!(null.close(), None);
    assert_eq!(null.raw(), 0);
    let mut invalid = Handle::new(-1);
    assert_eq!(invalid.close(), None);
    assert_eq!(invalid.raw(), -1);
}

#[test]
fn snapshot_requests_carry_the_flags() {
    assert_eq!(process_snapshot(), SnapshotRequest { flags: 2, pid: 0 });
    assert_eq!(module_snapshot(77), SnapshotRequest { flags: 24, pid: 77 });
}

#[test]
fn snapshot_needs_a_valid_handle() {
    assert_eq!(create_snapshot(Ok(0x44)), Ok(Handle::new(0x44)));
    assert_eq!(create_snapshot(Ok(-1)), Err(MemoryError::CreateSnapshotFailure));
    assert_eq!(create_snapshot(Ok(0)), Err(MemoryError::CreateSnapshotFailure));
    assert_eq!(create_snapshot(Err(8)), Err(MemoryError::CreateSnapshotFailure));
}
