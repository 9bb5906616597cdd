use vstd::prelude::*;

use crate::error::VmError;

verus! {

/// A (readable, writable, executable) permission set.
#[derive(Clone, Copy, Debug, PartialEq, Eq, Structural)]
pub struct Protection {
    pub read: bool,
    pub write: bool,
    pub execute: bool,
}

/// `PROT_READ`, `PROT_WRITE` and `PROT_EXEC` of POSIX `mprotect`.
pub const PROT_READ: u8 = 1;
pub const PROT_WRITE: u8 = 2;
pub const PROT_EXEC: u8 = 4;

/// The `PAGE_*` constants of Windows `VirtualAlloc` and `VirtualProtect`.
pub const PAGE_READONLY: u8 = 0x02;
pub const PAGE_READWRITE: u8 = 0x04;
pub const PAGE_EXECUTE: u8 = 0x10;
pub const PAGE_EXECUTE_READ: u8 = 0x20;
pub const PAGE_EXECUTE_READWRITE: u8 = 0x40;

/// The POSIX protection mask: one bit per permission.
pub open spec fn posix_bits(read: bool, write: bool, execute: bool) -> int {
    (if read { 1int } else { 0 }) + (if write { 2int } else { 0 }) + (if execute { 4int } else { 0 })
}

/// The Windows page-protection constant of a triple, where one exists.
pub open spec fn windows_code(read: bool, write: bool, execute: bool) -> Option<u8> {
    if read && write && execute {
        Some(PAGE_EXECUTE_READWRITE)
    } else if read && !write && execute {
        Some(PAGE_EXECUTE_READ)
    } else if !read && !write && execute {
        Some(PAGE_EXECUTE)
    } else if read && write && !execute {
        Some(PAGE_READWRITE)
    } else if read && !write && !execute {
        Some(PAGE_READONLY)
    } else {
        None
    }
}

/// Encodes a permission triple as a POSIX protection mask. Every triple has one.
pub fn get_protection(read: bool, write: bool, execute: bool) -> (r: u8)
    ensures
        r as int == posix_bits(read, write, execute),
{
    let mut bits: u8 = 0;
    if read {
        bits = bits + PROT_READ;
    }
    if write {
        bits = bits + PROT_WRITE;
    }
    if execute {
        bits = bits + PROT_EXEC;
    }
    bits
}

/// Encodes a permission triple as a Windows page-protection constant.
/// Write without read, and no permission at all, have no encoding.
pub fn get_windows_protection(read: bool, write: bool, execute: bool) -> (r: Result<u8, VmError>)
    ensures
        match windows_code(read, write, execute) {
            Some(c) => r == Ok::<u8, VmError>(c),
            None => r == Err::<u8, VmError>(VmError::InvalidProtectionCombination),
        },
{
    match (read, write, execute) {
        (true, true, true) => Ok(PAGE_EXECUTE_READWRITE),
        (true, false, true) => Ok(PAGE_EXECUTE_READ),
        (false, false, true) => Ok(PAGE_EXECUTE),
        (true, true, false) => Ok(PAGE_READWRITE),
        (true, false, false) => Ok(PAGE_READONLY),
        _ => Err(VmError::InvalidProtectionCombination),
    }
}

impl Protection {
    /// The POSIX protection mask of this permission set.
    pub fn posix(&self) -> (r: u8)
        ensures
            r as int == posix_bits(self.read, self.write, self.execute),
    {
        get_protection(self.read, self.write, self.execute)
    }

    /// The Windows page-protection constant of this permission set.
    pub fn windows(&self) -> (r: Result<u8, VmError>)
        ensures
            match windows_code(self.read, self.write, self.execute) {
                Some(c) => r == Ok::<u8, VmError>(c),
                None => r == Err::<u8, VmError>(VmError::InvalidProtectionCombination),
            },
    {
        get_windows_protection(self.read, self.write, self.execute)
    }
}

} // verus!
