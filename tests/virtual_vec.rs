use virtual_vec::{Protection, VirtualVec, VmError};

const BASE: usize = 0x7f00_0000_0000;
const INITIAL_CAP: usize = 1_000;
const MAX_CAP: usize = 1_000_000;

fn sample() -> VirtualVec<u8> {
    VirtualVec::<u8>::with_capacity(Some(BASE), MAX_CAP, INITIAL_CAP, true).unwrap()
}

#[test]
fn reserve_in_place_keeps_base() {
    let mut v = sample();
    let initial_ptr = v.as_ptr();
    assert_eq!(v.capacity(), INITIAL_CAP);
    assert_eq!(v.plan_reserve(500_000), Ok(Some(500_000)));
    assert_eq!(v.reserve(500_000, true), Ok(()));
    assert_eq!(v.capacity(), 500_000);
    assert_eq!(v.as_ptr(), initial_ptr);
    assert_eq!(v.as_mut(), initial_ptr);
}

#[test]
fn reserve_over_maximum_fails() {
    let mut v = sample();
    let initial_ptr = v.as_ptr();
    assert_eq!(v.plan_reserve(MAX_CAP * 2), Err(VmError::CeilingExceeded));
    assert_eq!(v.reserve(MAX_CAP * 2, true), Err(VmError::CeilingExceeded));
    assert_eq!(v.capacity(), INITIAL_CAP);
    assert_eq!(v.as_ptr(), initial_ptr);
}

#[test]
fn reserve_within_capacity_is_a_no_op() {
    let mut v = sample();
    assert_eq!(v.plan_reserve(INITIAL_CAP), Ok(None));
    assert_eq!(v.reserve(INITIAL_CAP, false), Ok(()));
    assert_eq!(v.reserve(10, false), Ok(()));
    assert_eq!(v.reserve(0, false), Ok(()));
    assert_eq!(v.capacity(), INITIAL_CAP);
}

#[test]
fn reserve_denied_by_backend_keeps_state() {
    let mut v = sample();
    assert_eq!(v.reserve(2_000, false), Err(VmError::BackendDenied));
    assert_eq!(v.capacity(), INITIAL_CAP);
    assert_eq!(v.len(), 0);
}

#[test]
fn capacity_never_decreases_over_a_run() {
    let mut v = sample();
    let mut last = v.capacity();
    let steps: [(usize, bool); 6] = [(5_000, true), (100, true), (MAX_CAP + 1, true), (20_000, false), (MAX_CAP, true), (7, false)];
    for (min, ok) in steps {
        let _ = v.reserve(min, ok);
        assert!(v.capacity() >= last);
        assert!(v.len() <= v.capacity() && v.capacity() <= v.max_capacity());
        assert_eq!(v.as_ptr(), BASE);
        last = v.capacity();
    }
    assert_eq!(last, MAX_CAP);
}

#[test]
fn append_bytes_to_empty_buffer() {
    let mut v = VirtualVec::<u8>::with_capacity_and_protection(Some(BASE), 10_000, 0, true, true, false, false).unwrap();
    assert_eq!(v.capacity(), 0);
    let data = [0x41u8; 100];
    assert_eq!(v.plan_write(data.len()), Ok(Some(100)));
    assert_eq!(v.write(data.len(), true), Ok(100));
    assert_eq!(v.len(), 100);
    assert!(v.capacity() >= 100);
    assert_eq!(v.as_ptr(), BASE);
    assert_eq!(v.plan_write(0), Ok(None));
}

#[test]
fn append_past_maximum_fails() {
    let mut v = VirtualVec::<u8>::with_capacity_and_protection(Some(BASE), 10_000, 0, true, true, false, true).unwrap();
    assert_eq!(v.write(9_999, true), Ok(9_999));
    assert_eq!(v.plan_write(2), Err(VmError::CeilingExceeded));
    assert_eq!(v.write(2, true), Err(VmError::CeilingExceeded));
    assert_eq!(v.write(usize::MAX, true), Err(VmError::CeilingExceeded));
    assert_eq!(v.len(), 9_999);
    assert_eq!(v.write(1, true), Ok(1));
    assert_eq!(v.len(), 10_000);
}

#[test]
fn append_after_read_only_protection_fails() {
    let mut v = VirtualVec::<u8>::with_capacity_and_protection(Some(BASE), 10_000, 100, true, true, false, true).unwrap();
    assert_eq!(v.committed_bytes(), 100);
    assert_eq!(v.set_protection(true, false, false, true), Ok(()));
    assert_eq!(v.protection(), Protection { read: true, write: false, execute: false });
    assert_eq!(v.plan_write(10), Err(VmError::WriteProtected));
    assert_eq!(v.write(10, true), Err(VmError::WriteProtected));
    assert_eq!(v.len(), 0);
    assert_eq!(v.capacity(), 100);
}

#[test]
fn failed_protection_change_is_reported() {
    let mut v = VirtualVec::<u8>::with_capacity_and_protection(Some(BASE), 10_000, 100, true, true, false, true).unwrap();
    assert_eq!(v.set_protection(true, false, false, false), Err(VmError::BackendDenied));
    assert_eq!(v.protection(), Protection { read: true, write: true, execute: false });
}

#[test]
fn element_size_scales_bytes() {
    let mut v = VirtualVec::<u64>::with_capacity_and_protection(Some(BASE), 1_000, 10, true, true, false, true).unwrap();
    assert_eq!(v.reserved_bytes(), 8_000);
    assert_eq!(v.committed_bytes(), 80);
    assert_eq!(v.plan_reserve(100), Ok(Some(800)));
    assert_eq!(v.plan_write(20), Ok(Some(160)));
    assert_eq!(VirtualVec::<u64>::reservation_size(1_000), Some(8_000));
    assert_eq!(VirtualVec::<u64>::reservation_size(usize::MAX), None);
}

#[test]
fn construction_errors() {
    assert_eq!(VirtualVec::<u8>::new(None, 10).err(), Some(VmError::BackendDenied));
    assert_eq!(VirtualVec::<u64>::new(Some(BASE), usize::MAX).err(), Some(VmError::CeilingExceeded));
    assert_eq!(VirtualVec::<u8>::with_capacity(Some(BASE), 10, 11, true).err(), Some(VmError::CeilingExceeded));
    assert_eq!(VirtualVec::<u8>::with_capacity(Some(BASE), 10, 5, false).err(), Some(VmError::BackendDenied));
}

#[test]
fn new_is_read_only_and_empty() {
    let v = VirtualVec::<u8>::new(Some(BASE), 10).unwrap();
    assert_eq!(v.len(), 0);
    assert_eq!(v.capacity(), 0);
    assert_eq!(v.max_capacity(), 10);
    assert_eq!(v.protection(), Protection { read: true, write: false, execute: false });
    let w = VirtualVec::<u8>::with_protection(Some(BASE), 10, true, true, true).unwrap();
    assert_eq!(w.protection(), Protection { read: true, write: true, execute: true });
}
