use vstd::prelude::*;

use crate::error::VmError;

verus! {

/// What a growth controller stands for: committed capacity, the fixed
/// ceiling, both counted in units, and the size of one unit in bytes.
pub struct GrowthModel {
    pub cap: nat,
    pub max: nat,
    pub unit: nat,
}

/// The capacity that `ensure_capacity(min)` leaves behind, or its error,
/// given whether the commit it asked for succeeded.
pub open spec fn ensure_outcome(cap: nat, max: nat, min: nat, committed: bool) -> Result<nat, VmError> {
    if min > max {
        Err(VmError::CeilingExceeded)
    } else if min <= cap {
        Ok(cap)
    } else if committed {
        Ok(min)
    } else {
        Err(VmError::BackendDenied)
    }
}

/// Decides when more of a reservation must be committed, and keeps
/// `capacity <= max_capacity` with a capacity that never shrinks.
pub struct GrowthController {
    cap: usize,
    max: usize,
    unit: usize,
}

impl View for GrowthController {
    type V = GrowthModel;

    closed spec fn view(&self) -> GrowthModel {
        GrowthModel { cap: self.cap as nat, max: self.max as nat, unit: self.unit as nat }
    }
}

impl GrowthController {
    #[verifier::type_invariant]
    closed spec fn inv(self) -> bool {
        &&& self.cap <= self.max
        &&& self.max * self.unit <= usize::MAX
    }

    /// A controller with nothing committed, for a reservation of `max`
    /// units of `unit` bytes each.
    pub fn new(max: usize, unit: usize) -> (r: Self)
        requires
            max * unit <= usize::MAX,
        ensures
            r@ == (GrowthModel { cap: 0, max: max as nat, unit: unit as nat }),
    {
        GrowthController { cap: 0, max, unit }
    }

    pub fn capacity(&self) -> (r: usize)
        ensures
            r == self@.cap,
            self@.cap <= self@.max,
            self@.max * self@.unit <= usize::MAX,
    {
        proof { use_type_invariant(self); }
        self.cap
    }

    pub fn max_capacity(&self) -> (r: usize)
        ensures
            r == self@.max,
    {
        self.max
    }

    /// The size of the whole reservation in bytes.
    pub fn reserved_bytes(&self) -> (r: usize)
        ensures
            r == self@.max * self@.unit,
    {
        proof { use_type_invariant(self); }
        self.max * self.unit
    }

    /// The size in bytes of the committed part of the reservation.
    pub fn committed_bytes(&self) -> (r: usize)
        ensures
            r == self@.cap * self@.unit,
    {
        proof {
            use_type_invariant(self);
            assert(self.cap * self.unit <= self.max * self.unit) by (nonlinear_arith)
                requires self.cap <= self.max;
        }
        self.cap * self.unit
    }

    /// What `ensure_capacity(min)` needs first: `Ok(None)` when nothing is to
    /// be committed, `Ok(Some(bytes))` when the first `bytes` bytes of the
    /// reservation must be committed, `Err` when the request is refused.
    pub fn plan(&self, min: usize) -> (r: Result<Option<usize>, VmError>)
        ensures
            min > self@.max ==> r == Err::<Option<usize>, VmError>(VmError::CeilingExceeded),
            min <= self@.cap ==> r == Ok::<Option<usize>, VmError>(None),
            self@.cap < min <= self@.max ==> r == Ok::<Option<usize>, VmError>(Some((min * self@.unit) as usize)),
    {
        proof { use_type_invariant(self); }
        if min > self.max {
            Err(VmError::CeilingExceeded)
        } else if min <= self.cap {
            Ok(None)
        } else {
            proof {
                assert(min * self.unit <= self.max * self.unit) by (nonlinear_arith)
                    requires min <= self.max;
            }
            Ok(Some(min * self.unit))
        }
    }

    /// Makes sure that at least `min` units are committed. `committed` is the
    /// outcome of the commit that `plan(min)` asked for; it is not read when
    /// no commit was asked for.
    pub fn ensure_capacity(&mut self, min: usize, committed: bool) -> (r: Result<(), VmError>)
        ensures
            match ensure_outcome(old(self)@.cap, old(self)@.max, min as nat, committed) {
                Ok(c) => r is Ok && final(self)@ == (GrowthModel { cap: c, ..old(self)@ }),
                Err(e) => r == Err::<(), VmError>(e) && final(self)@ == old(self)@,
            },
            final(self)@.cap <= final(self)@.max,
        no_unwind
    {
        proof { use_type_invariant(&*self); }
        if min > self.max {
            return Err(VmError::CeilingExceeded);
        }
        if self.cap < min {
            if !committed {
                return Err(VmError::BackendDenied);
            }
            self.cap = min;
        }
        Ok(())
    }
}

} // verus!
