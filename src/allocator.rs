use vstd::prelude::*;

use crate::error::VmError;
use crate::growth::{GrowthController, ensure_outcome};
use crate::protection::Protection;

verus! {

/// The largest allocation that `VirtualAlloc::default` allows, in bytes.
pub const DEFAULT_MAX: u64 = 500_000_000_000;

/// What a `VirtualAlloc` stands for: the size in bytes of every
/// reservation it makes, and the protection of what it commits.
pub struct AllocModel {
    pub max: nat,
    pub prot: Protection,
}

/// What an `Allocation` stands for: the base address of its reservation,
/// the bytes committed, and the size of the reservation.
pub struct AllocationModel {
    pub base: usize,
    pub cap: nat,
    pub max: nat,
}

/// An allocator that gives each allocation a reservation of its own, so
/// that growing an allocation never moves it.
pub struct VirtualAlloc {
    max: usize,
    prot: Protection,
}

impl View for VirtualAlloc {
    type V = AllocModel;

    closed spec fn view(&self) -> AllocModel {
        AllocModel { max: self.max as nat, prot: self.prot }
    }
}

impl Default for VirtualAlloc {
    /// Read-write allocations of up to `DEFAULT_MAX` bytes, where the
    /// address space is that large.
    fn default() -> (r: Self)
        ensures
            r@ == (AllocModel { max: DEFAULT_MAX as usize as nat, prot: Protection { read: true, write: true, execute: false } }),
    {
        VirtualAlloc::new(DEFAULT_MAX as usize)
    }
}

impl VirtualAlloc {
    /// Read-write allocations of up to `max` bytes.
    pub fn new(max: usize) -> (r: Self)
        ensures
            r@ == (AllocModel { max: max as nat, prot: Protection { read: true, write: true, execute: false } }),
    {
        VirtualAlloc { max, prot: Protection { read: true, write: true, execute: false } }
    }

    /// Allocations of up to `max` bytes, committed with the given protection.
    pub fn with_protection(max: usize, read: bool, write: bool, execute: bool) -> (r: Self)
        ensures
            r@ == (AllocModel { max: max as nat, prot: Protection { read, write, execute } }),
    {
        VirtualAlloc { max, prot: Protection { read, write, execute } }
    }

    /// The size of every reservation, and so the ceiling of every allocation.
    pub fn max_capacity(&self) -> (r: usize)
        ensures
            r == self@.max,
    {
        self.max
    }

    /// The protection that allocations are committed with.
    pub fn protection(&self) -> (r: Protection)
        ensures
            r == self@.prot,
    {
        self.prot
    }

    /// What allocating `size` bytes needs once `max_capacity()` bytes are
    /// reserved: `Ok(None)` when nothing is to be committed, `Ok(Some(bytes))`
    /// when the first `bytes` bytes must be committed, `Err` when the
    /// request is refused whatever the commit does.
    pub fn plan_alloc(&self, size: usize) -> (r: Result<Option<usize>, VmError>)
        ensures
            size > self@.max ==> r == Err::<Option<usize>, VmError>(VmError::CeilingExceeded),
            size == 0 ==> r == Ok::<Option<usize>, VmError>(None),
            0 < size <= self@.max ==> r == Ok::<Option<usize>, VmError>(Some(size)),
    {
        GrowthController::new(self.max, 1).plan(size)
    }

    /// Makes an allocation of `size` bytes. `reserved` is the base address of
    /// a fresh reservation of `max_capacity()` bytes, or `None` where it was
    /// refused; `committed` is the outcome of the commit that
    /// `plan_alloc(size)` asked for. Fresh memory reads as zero, so this is
    /// also a zeroed allocation. On `Err` with a reservation, the caller
    /// releases it.
    pub fn allocate(&self, size: usize, reserved: Option<usize>, committed: bool) -> (r: Result<Allocation, VmError>)
        ensures
            reserved is None ==> r == Err::<Allocation, VmError>(VmError::BackendDenied),
            reserved is Some ==> match ensure_outcome(0, self@.max, size as nat, committed) {
                Ok(c) => r matches Ok(a) && a@ == (AllocationModel { base: reserved->0, cap: c, max: self@.max }),
                Err(e) => r == Err::<Allocation, VmError>(e),
            },
    {
        match reserved {
            None => Err(VmError::BackendDenied),
            Some(base) => {
                let mut growth = GrowthController::new(self.max, 1);
                growth.ensure_capacity(size, committed)?;
                Ok(Allocation { base, growth })
            },
        }
    }
}

/// One live allocation of a `VirtualAlloc`: a reservation whose committed
/// part grows in place.
pub struct Allocation {
    base: usize,
    growth: GrowthController,
}

impl View for Allocation {
    type V = AllocationModel;

    closed spec fn view(&self) -> AllocationModel {
        AllocationModel { base: self.base, cap: self.growth@.cap, max: self.growth@.max }
    }
}

impl Allocation {
    #[verifier::type_invariant]
    closed spec fn inv(self) -> bool {
        &&& self.growth@.unit == 1
        &&& self.growth@.cap <= self.growth@.max
    }

    /// The base address of the allocation.
    pub fn as_ptr(&self) -> (r: usize)
        ensures
            r == self@.base,
    {
        self.base
    }

    /// The number of bytes committed.
    pub fn capacity(&self) -> (r: usize)
        ensures
            r == self@.cap,
            self@.cap <= self@.max,
    {
        proof { use_type_invariant(self); }
        self.growth.capacity()
    }

    /// The size of the reservation in bytes: what is to be released.
    pub fn reserved_bytes(&self) -> (r: usize)
        ensures
            r == self@.max,
    {
        proof { use_type_invariant(self); }
        self.growth.reserved_bytes()
    }

    /// What growing to `new_size` bytes needs first, as `VirtualAlloc::plan_alloc`
    /// says it.
    pub fn plan_grow(&self, new_size: usize) -> (r: Result<Option<usize>, VmError>)
        ensures
            new_size > self@.max ==> r == Err::<Option<usize>, VmError>(VmError::CeilingExceeded),
            new_size <= self@.cap ==> r == Ok::<Option<usize>, VmError>(None),
            self@.cap < new_size <= self@.max ==> r == Ok::<Option<usize>, VmError>(Some(new_size)),
    {
        proof { use_type_invariant(self); }
        self.growth.plan(new_size)
    }

    /// Grows the allocation in place to at least `new_size` bytes.
    /// `committed` is the outcome of the commit that `plan_grow(new_size)`
    /// asked for.
    pub fn grow_in_place(&mut self, new_size: usize, committed: bool) -> (r: Result<(), VmError>)
        ensures
            match ensure_outcome(old(self)@.cap, old(self)@.max, new_size as nat, committed) {
                Ok(c) => r is Ok && final(self)@ == (AllocationModel { cap: c, ..old(self)@ }),
                Err(e) => r == Err::<(), VmError>(e) && final(self)@ == old(self)@,
            },
            final(self)@.base == old(self)@.base,
            old(self)@.cap <= final(self)@.cap <= final(self)@.max,
    {
        proof { use_type_invariant(&*self); }
        self.growth.ensure_capacity(new_size, committed)
    }

    /// Grows the allocation as `grow_in_place` does, and on success returns
    /// its address, which is always the one it had.
    pub fn realloc(&mut self, new_size: usize, committed: bool) -> (r: Result<usize, VmError>)
        ensures
            match ensure_outcome(old(self)@.cap, old(self)@.max, new_size as nat, committed) {
                Ok(c) => r == Ok::<usize, VmError>(old(self)@.base) && final(self)@ == (AllocationModel {
                    cap: c,
                    ..old(self)@
                }),
                Err(e) => r == Err::<usize, VmError>(e) && final(self)@ == old(self)@,
            },
            final(self)@.base == old(self)@.base,
            old(self)@.cap <= final(self)@.cap <= final(self)@.max,
    {
        self.grow_in_place(new_size, committed)?;
        Ok(self.base)
    }
}

} // verus!
