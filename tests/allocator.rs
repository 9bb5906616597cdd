use virtual_vec::{Protection, VirtualAlloc, VmError};

const BASE: usize = 0x7e00_0000_0000;

#[test]
fn allocator_configuration() {
    let a = VirtualAlloc::new(4096);
    assert_eq!(a.max_capacity(), 4096);
    assert_eq!(a.protection(), Protection { read: true, write: true, execute: false });
    let b = VirtualAlloc::with_protection(100, true, false, true);
    assert_eq!(b.protection(), Protection { read: true, write: false, execute: true });
    let d = VirtualAlloc::default();
    assert_eq!(d.max_capacity(), 500_000_000_000);
}

#[test]
fn allocate_then_grow_keeps_address() {
    let a = VirtualAlloc::new(1_000_000);
    assert_eq!(a.plan_alloc(1_000), Ok(Some(1_000)));
    let mut m = a.allocate(1_000, Some(BASE), true).unwrap();
    assert_eq!(m.as_ptr(), BASE);
    assert_eq!(m.capacity(), 1_000);
    assert_eq!(m.reserved_bytes(), 1_000_000);
    assert_eq!(m.plan_grow(500_000), Ok(Some(500_000)));
    assert_eq!(m.realloc(500_000, true), Ok(BASE));
    assert_eq!(m.capacity(), 500_000);
    assert_eq!(m.grow_in_place(600_000, true), Ok(()));
    assert_eq!(m.plan_grow(10), Ok(None));
    assert_eq!(m.as_ptr(), BASE);
}

#[test]
fn allocation_growth_over_maximum_fails() {
    let a = VirtualAlloc::new(1_000_000);
    let mut m = a.allocate(1_000, Some(BASE), true).unwrap();
    assert_eq!(m.plan_grow(2_000_000), Err(VmError::CeilingExceeded));
    assert_eq!(m.realloc(2_000_000, true), Err(VmError::CeilingExceeded));
    assert_eq!(m.grow_in_place(2_000_000, true), Err(VmError::CeilingExceeded));
    assert_eq!(m.realloc(5_000, false), Err(VmError::BackendDenied));
    assert_eq!(m.capacity(), 1_000);
    assert_eq!(m.as_ptr(), BASE);
}

#[test]
fn allocation_errors() {
    let a = VirtualAlloc::new(100);
    assert_eq!(a.plan_alloc(0), Ok(None));
    assert_eq!(a.plan_alloc(101), Err(VmError::CeilingExceeded));
    assert_eq!(a.allocate(10, None, true).err(), Some(VmError::BackendDenied));
    assert_eq!(a.allocate(101, Some(BASE), true).err(), Some(VmError::CeilingExceeded));
    assert_eq!(a.allocate(10, Some(BASE), false).err(), Some(VmError::BackendDenied));
    let z = a.allocate(0, Some(BASE), false).unwrap();
    assert_eq!(z.capacity(), 0);
}
