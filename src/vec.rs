use vstd::prelude::*;

use crate::error::VmError;
use crate::growth::{GrowthController, GrowthModel, ensure_outcome};
use crate::protection::Protection;

verus! {

/// What a `VirtualVec` stands for: the base address of its reservation, the
/// protection of its committed memory, its length, its committed capacity
/// and its ceiling, all counted in elements.
pub struct VecModel {
    pub base: usize,
    pub prot: Protection,
    pub len: nat,
    pub cap: nat,
    pub max: nat,
}

impl VecModel {
    /// `len <= capacity <= max_capacity`.
    pub open spec fn well_formed(self) -> bool {
        self.len <= self.cap <= self.max
    }
}

/// `b` may follow `a` in the life of one buffer: same reservation, same
/// ceiling, no less committed.
pub open spec fn grows_from(a: VecModel, b: VecModel) -> bool {
    &&& b.base == a.base
    &&& b.max == a.max
    &&& a.cap <= b.cap
}

/// Whether a ceiling of `max` elements of `T` fits in the address space.
pub open spec fn fits<T>(max: nat) -> bool {
    max * vstd::layout::size_of::<T>() <= usize::MAX
}

/// The capacity that appending `n` elements leaves behind, or its error,
/// given whether the commit it asked for succeeded.
pub open spec fn write_outcome(m: VecModel, n: nat, committed: bool) -> Result<nat, VmError> {
    if !m.prot.write {
        Err(VmError::WriteProtected)
    } else {
        ensure_outcome(m.cap, m.max, (m.len + n) as nat, committed)
    }
}

/// Moving from `a` to `b` keeps the reservation and never shrinks it.
pub proof fn lemma_grows_from_transitive(a: VecModel, b: VecModel, c: VecModel)
    requires
        grows_from(a, b),
        grows_from(b, c),
    ensures
        grows_from(a, c),
{
}

/// Over any run of operations on one buffer, the base address stays what it
/// was at the start, and the capacity never goes down.
pub proof fn lemma_grows_from_chain(s: Seq<VecModel>)
    requires
        forall|i: int| 0 <= i < s.len() - 1 ==> grows_from(#[trigger] s[i], s[i + 1]),
    ensures
        forall|i: int, j: int| 0 <= i <= j < s.len() ==> grows_from(#[trigger] s[i], #[trigger] s[j]),
    decreases s.len(),
{
    if s.len() > 1 {
        let t = s.drop_last();
        assert forall|i: int| 0 <= i < t.len() - 1 implies grows_from(#[trigger] t[i], t[i + 1]) by {
            assert(t[i] == s[i] && t[i + 1] == s[i + 1]);
        }
        lemma_grows_from_chain(t);
        assert forall|i: int, j: int| 0 <= i <= j < s.len() implies grows_from(#[trigger] s[i], #[trigger] s[j]) by {
            if j < s.len() - 1 {
                assert(t[i] == s[i] && t[j] == s[j]);
            } else if i < j {
                assert(t[i] == s[i] && t[j - 1] == s[j - 1]);
                lemma_grows_from_transitive(s[i], s[j - 1], s[j]);
            }
        }
    }
}

/// A vector that grows lazily inside one reservation of address space, so
/// that its base address never changes.
///
/// The caller reserves the space, commits what `plan_reserve` and
/// `plan_write` ask for, and hands the outcome back to `reserve` and `write`.
pub struct VirtualVec<T> {
    base: usize,
    prot: Protection,
    growth: GrowthController,
    len: usize,
    elem: core::marker::PhantomData<T>,
}

impl<T> View for VirtualVec<T> {
    type V = VecModel;

    closed spec fn view(&self) -> VecModel {
        VecModel {
            base: self.base,
            prot: self.prot,
            len: self.len as nat,
            cap: self.growth@.cap,
            max: self.growth@.max,
        }
    }
}

impl<T> VirtualVec<T> {
    #[verifier::type_invariant]
    closed spec fn inv(self) -> bool {
        &&& self.len <= self.growth@.cap
        &&& self.growth@.cap <= self.growth@.max
        &&& self.growth@.unit == vstd::layout::size_of::<T>()
    }

    /// The number of bytes to reserve for `max` elements, if it fits.
    pub fn reservation_size(max: usize) -> (r: Option<usize>)
        ensures
            fits::<T>(max as nat) ==> r == Some((max * vstd::layout::size_of::<T>()) as usize),
            !fits::<T>(max as nat) ==> r is None,
    {
        max.checked_mul(core::mem::size_of::<T>())
    }

    /// Creates an empty vector over a reservation for `max` elements, whose
    /// memory will be committed with the given protection. `reserved` is the
    /// base address of the reservation, or `None` where it was refused.
    pub fn with_protection(reserved: Option<usize>, max: usize, read: bool, write: bool, execute: bool) -> (r: Result<Self, VmError>)
        ensures
            !fits::<T>(max as nat) ==> r == Err::<Self, VmError>(VmError::CeilingExceeded),
            fits::<T>(max as nat) && reserved is None ==> r == Err::<Self, VmError>(VmError::BackendDenied),
            fits::<T>(max as nat) && reserved is Some ==> (r matches Ok(v) && v@ == (VecModel {
                base: reserved->0,
                prot: Protection { read, write, execute },
                len: 0,
                cap: 0,
                max: max as nat,
            })),
    {
        let unit = core::mem::size_of::<T>();
        if max.checked_mul(unit).is_none() {
            return Err(VmError::CeilingExceeded);
        }
        match reserved {
            None => Err(VmError::BackendDenied),
            Some(base) => Ok(VirtualVec {
                base,
                prot: Protection { read, write, execute },
                growth: GrowthController::new(max, unit),
                len: 0,
                elem: core::marker::PhantomData,
            }),
        }
    }

    /// Creates an empty vector as `with_protection` does, then commits room
    /// for `cap` elements. `committed` is the outcome of the commit that
    /// `plan_reserve(cap)` asked for on the new vector.
    pub fn with_capacity_and_protection(
        reserved: Option<usize>,
        max: usize,
        cap: usize,
        read: bool,
        write: bool,
        execute: bool,
        committed: bool,
    ) -> (r: Result<Self, VmError>)
        ensures
            !fits::<T>(max as nat) ==> r == Err::<Self, VmError>(VmError::CeilingExceeded),
            fits::<T>(max as nat) && reserved is None ==> r == Err::<Self, VmError>(VmError::BackendDenied),
            fits::<T>(max as nat) && reserved is Some ==> match ensure_outcome(0, max as nat, cap as nat, committed) {
                Ok(c) => r matches Ok(v) && v@ == (VecModel {
                    base: reserved->0,
                    prot: Protection { read, write, execute },
                    len: 0,
                    cap: c,
                    max: max as nat,
                }),
                Err(e) => r == Err::<Self, VmError>(e),
            },
    {
        let mut v = Self::with_protection(reserved, max, read, write, execute)?;
        v.reserve(cap, committed)?;
        Ok(v)
    }

    /// A read-only vector over a reservation for `max` elements.
    pub fn new(reserved: Option<usize>, max: usize) -> (r: Result<Self, VmError>)
        ensures
            !fits::<T>(max as nat) ==> r == Err::<Self, VmError>(VmError::CeilingExceeded),
            fits::<T>(max as nat) && reserved is None ==> r == Err::<Self, VmError>(VmError::BackendDenied),
            fits::<T>(max as nat) && reserved is Some ==> (r matches Ok(v) && v@ == (VecModel {
                base: reserved->0,
                prot: Protection { read: true, write: false, execute: false },
                len: 0,
                cap: 0,
                max: max as nat,
            })),
    {
        Self::with_protection(reserved, max, true, false, false)
    }

    /// A read-only vector with room committed for `cap` elements.
    pub fn with_capacity(reserved: Option<usize>, max: usize, cap: usize, committed: bool) -> (r: Result<Self, VmError>)
        ensures
            !fits::<T>(max as nat) ==> r == Err::<Self, VmError>(VmError::CeilingExceeded),
            fits::<T>(max as nat) && reserved is None ==> r == Err::<Self, VmError>(VmError::BackendDenied),
            fits::<T>(max as nat) && reserved is Some ==> match ensure_outcome(0, max as nat, cap as nat, committed) {
                Ok(c) => r matches Ok(v) && v@ == (VecModel {
                    base: reserved->0,
                    prot: Protection { read: true, write: false, execute: false },
                    len: 0,
                    cap: c,
                    max: max as nat,
                }),
                Err(e) => r == Err::<Self, VmError>(e),
            },
    {
        Self::with_capacity_and_protection(reserved, max, cap, true, false, false, committed)
    }
    pub fn len(&self) -> (r: usize)
        ensures
            r == self@.len,
            self@.well_formed(),
    {
        proof { use_type_invariant(self); }
        self.len
    }

    /// The number of elements for which memory is committed.
    pub fn capacity(&self) -> (r: usize)
        ensures
            r == self@.cap,
            self@.well_formed(),
    {
        proof { use_type_invariant(self); }
        self.growth.capacity()
    }

    /// The ceiling fixed at construction.
    pub fn max_capacity(&self) -> (r: usize)
        ensures
            r == self@.max,
            self@.well_formed(),
    {
        proof { use_type_invariant(self); }
        self.growth.max_capacity()
    }

    /// The protection that committed memory has.
    pub fn protection(&self) -> (r: Protection)
        ensures
            r == self@.prot,
    {
        self.prot
    }

    /// The base address of the reservation.
    pub fn as_ptr(&self) -> (r: usize)
        ensures
            r == self@.base,
    {
        self.base
    }

    /// The base address of the reservation, for writing through.
    pub fn as_mut(&self) -> (r: usize)
        ensures
            r == self@.base,
    {
        self.base
    }

    /// The size of the whole reservation in bytes: what is to be released.
    pub fn reserved_bytes(&self) -> (r: usize)
        ensures
            r == self@.max * vstd::layout::size_of::<T>(),
    {
        proof { use_type_invariant(self); }
        self.growth.reserved_bytes()
    }

    /// The size in bytes of the committed memory: what a change of
    /// protection covers.
    pub fn committed_bytes(&self) -> (r: usize)
        ensures
            r == self@.cap * vstd::layout::size_of::<T>(),
    {
        proof { use_type_invariant(self); }
        self.growth.committed_bytes()
    }

    /// What `reserve(min)` needs first: `Ok(None)` when nothing is to be
    /// committed, `Ok(Some(bytes))` when the first `bytes` bytes of the
    /// reservation must be committed with the current protection, `Err`
    /// when the request is refused whatever the commit does.
    pub fn plan_reserve(&self, min: usize) -> (r: Result<Option<usize>, VmError>)
        ensures
            min > self@.max ==> r == Err::<Option<usize>, VmError>(VmError::CeilingExceeded),
            min <= self@.cap ==> r == Ok::<Option<usize>, VmError>(None),
            self@.cap < min <= self@.max ==> r == Ok::<Option<usize>, VmError>(
                Some((min * vstd::layout::size_of::<T>()) as usize),
            ),
    {
        proof { use_type_invariant(self); }
        self.growth.plan(min)
    }

    /// Makes sure that room for at least `min` elements is committed.
    /// `committed` is the outcome of the commit that `plan_reserve(min)`
    /// asked for; it is not read when none was asked for.
    pub fn reserve(&mut self, min: usize, committed: bool) -> (r: Result<(), VmError>)
        ensures
            match ensure_outcome(old(self)@.cap, old(self)@.max, min as nat, committed) {
                Ok(c) => r is Ok && final(self)@ == (VecModel { cap: c, ..old(self)@ }),
                Err(e) => r == Err::<(), VmError>(e) && final(self)@ == old(self)@,
            },
            min > old(self)@.max ==> r == Err::<(), VmError>(VmError::CeilingExceeded) && final(self)@ == old(self)@,
            min <= old(self)@.cap ==> r is Ok && final(self)@ == old(self)@,
            grows_from(old(self)@, final(self)@),
            final(self)@.well_formed(),
    {
        proof { use_type_invariant(&*self); }
        self.growth.ensure_capacity(min, committed)
    }

    /// Records a change of protection of the committed memory. `applied` is
    /// the outcome of protecting the first `committed_bytes()` bytes.
    pub fn set_protection(&mut self, read: bool, write: bool, execute: bool, applied: bool) -> (r: Result<(), VmError>)
        ensures
            applied ==> r is Ok && final(self)@ == (VecModel { prot: Protection { read, write, execute }, ..old(self)@ }),
            !applied ==> r == Err::<(), VmError>(VmError::BackendDenied) && final(self)@ == old(self)@,
            grows_from(old(self)@, final(self)@),
            final(self)@.well_formed(),
    {
        proof { use_type_invariant(&*self); }
        if !applied {
            return Err(VmError::BackendDenied);
        }
        self.prot = Protection { read, write, execute };
        Ok(())
    }

    /// What `write(n)` needs first, as `plan_reserve` says it for room for
    /// `len() + n` elements; `Err` when the write is refused whatever the
    /// commit does.
    pub fn plan_write(&self, n: usize) -> (r: Result<Option<usize>, VmError>)
        ensures
            match write_outcome(self@, n as nat, true) {
                Err(e) => r == Err::<Option<usize>, VmError>(e),
                Ok(_) => if self@.len + n <= self@.cap {
                    r == Ok::<Option<usize>, VmError>(None)
                } else {
                    r == Ok::<Option<usize>, VmError>(Some(((self@.len + n) * vstd::layout::size_of::<T>()) as usize))
                },
            },
    {
        proof { use_type_invariant(self); }
        if !self.prot.write {
            return Err(VmError::WriteProtected);
        }
        let max = self.growth.max_capacity();
        if n > max - self.len {
            return Err(VmError::CeilingExceeded);
        }
        self.growth.plan(self.len + n)
    }

    /// Appends `n` elements: grows to `len() + n` and extends the length.
    /// `committed` is the outcome of the commit that `plan_write(n)` asked
    /// for. On success the caller copies the elements to index `len()` as it
    /// was before the call; on failure nothing changes and nothing is to be
    /// copied. Returns the number of elements appended, always `n`.
    pub fn write(&mut self, n: usize, committed: bool) -> (r: Result<usize, VmError>)
        ensures
            match write_outcome(old(self)@, n as nat, committed) {
                Ok(c) => r == Ok::<usize, VmError>(n) && final(self)@ == (VecModel {
                    len: (old(self)@.len + n) as nat,
                    cap: c,
                    ..old(self)@
                }),
                Err(e) => r == Err::<usize, VmError>(e) && final(self)@ == old(self)@,
            },
            grows_from(old(self)@, final(self)@),
            final(self)@.well_formed(),
    {
        proof { use_type_invariant(&*self); }
        if !self.prot.write {
            return Err(VmError::WriteProtected);
        }
        let max = self.growth.max_capacity();
        if n > max - self.len {
            return Err(VmError::CeilingExceeded);
        }
        let new_len = self.len + n;
        self.growth.ensure_capacity(new_len, committed)?;
        self.len = new_len;
        Ok(n)
    }
}

} // verus!
