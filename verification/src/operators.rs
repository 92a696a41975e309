//! `+`, `-`, `+=` and `-=` on ticks. Each operator carries the precondition
//! and the result of the named method it stands for.

use crate::tick::TickId;
use vstd::prelude::*;

verus! {

impl core::ops::Add<u32> for TickId {
    type Output = TickId;

    /// `tick + delta`: the tick `delta` steps later.
    fn add(self, delta: u32) -> (sum: TickId) {
        TickId(self.0 + delta)
    }
}

impl vstd::std_specs::ops::AddSpecImpl<u32> for TickId {
    open spec fn obeys_add_spec() -> bool {
        true
    }

    open spec fn add_req(self, delta: u32) -> bool {
        self.can_add(delta)
    }

    open spec fn add_spec(self, delta: u32) -> TickId {
        self.spec_add(delta)
    }
}

impl core::ops::Sub<u32> for TickId {
    type Output = TickId;

    /// `tick - delta`: the tick `delta` steps earlier.
    fn sub(self, delta: u32) -> (rest: TickId) {
        TickId(self.0 - delta)
    }
}

impl vstd::std_specs::ops::SubSpecImpl<u32> for TickId {
    open spec fn obeys_sub_spec() -> bool {
        true
    }

    open spec fn sub_req(self, delta: u32) -> bool {
        self.can_subtract(delta)
    }

    open spec fn sub_spec(self, delta: u32) -> TickId {
        self.spec_subtract(delta)
    }
}

impl core::ops::Sub<TickId> for TickId {
    type Output = i64;

    /// `later - earlier`: the signed distance between two ticks.
    fn sub(self, other: TickId) -> (distance: i64) {
        self.difference(other)
    }
}

impl vstd::std_specs::ops::SubSpecImpl<TickId> for TickId {
    open spec fn obeys_sub_spec() -> bool {
        true
    }

    open spec fn sub_req(self, other: TickId) -> bool {
        true
    }

    open spec fn sub_spec(self, other: TickId) -> i64 {
        self.spec_difference(other) as i64
    }
}

impl core::ops::AddAssign<u32> for TickId {
    /// `tick += delta`: advances the tick in place.
    fn add_assign(&mut self, delta: u32)
        requires
            old(self).can_add(delta),
        ensures
            final(self)@ == old(self)@ + delta,
            *final(self) == old(self).spec_add(delta),
    {
        self.0 = self.0 + delta;
    }
}

impl core::ops::SubAssign<u32> for TickId {
    /// `tick -= delta`: moves the tick back in place.
    fn sub_assign(&mut self, delta: u32)
        requires
            old(self).can_subtract(delta),
        ensures
            final(self)@ == old(self)@ - delta,
            *final(self) == old(self).spec_subtract(delta),
    {
        self.0 = self.0 - delta;
    }
}

} // verus!
