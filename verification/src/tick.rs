//! The `TickId` value type and its arithmetic.

use vstd::prelude::*;

verus! {

/// Names one discrete step of a simulation clock, counted from an arbitrary
/// epoch. Every `u32` is a valid tick; `0` is the first one.
#[derive(Debug, Clone, Copy, PartialEq, Eq, Structural, Ord, Hash)]
pub struct TickId(pub u32);

impl Default for TickId {
    /// The first tick.
    fn default() -> (tick: Self)
        ensures
            tick@ == 0,
    {
        TickId(0)
    }
}

impl View for TickId {
    type V = int;

    /// The tick count as a mathematical integer.
    open spec fn view(&self) -> int {
        self.0 as int
    }
}

impl TickId {
    /// The tick whose counter is `value`.
    pub open spec fn spec_new(value: u32) -> TickId {
        TickId(value)
    }

    /// The counter of the tick.
    pub open spec fn spec_value(&self) -> u32 {
        self.0
    }

    /// Wraps `value`; no value is reserved.
    #[verifier::when_used_as_spec(spec_new)]
    pub fn new(value: u32) -> (tick: Self)
        ensures
            tick == TickId(value),
            tick@ == value,
    {
        TickId(value)
    }

    /// The underlying counter.
    #[verifier::when_used_as_spec(spec_value)]
    pub fn value(&self) -> (value: u32)
        ensures
            value == self.0,
            value == self@,
    {
        self.0
    }

    /// Whether `self + delta` is still a tick, that is, does not pass `u32::MAX`.
    pub open spec fn can_add(self, delta: u32) -> bool {
        self@ + delta <= u32::MAX
    }

    /// Whether `self - delta` is still a tick, that is, does not fall below zero.
    pub open spec fn can_subtract(self, delta: u32) -> bool {
        delta <= self@
    }

    /// The tick `delta` steps after `self`.
    pub open spec fn spec_add(self, delta: u32) -> TickId
        recommends
            self.can_add(delta),
    {
        TickId((self.0 + delta) as u32)
    }

    /// The tick `delta` steps before `self`.
    pub open spec fn spec_subtract(self, delta: u32) -> TickId
        recommends
            self.can_subtract(delta),
    {
        TickId((self.0 - delta) as u32)
    }

    /// How many steps `self` lies after `other`; negative when it lies before.
    pub open spec fn spec_difference(self, other: TickId) -> int {
        self@ - other@
    }

    /// The tick `delta` steps later. Passing `u32::MAX` is a caller's
    /// mistake, so the precondition rules it out.
    #[verifier::when_used_as_spec(spec_add)]
    pub fn add(self, delta: u32) -> (sum: TickId)
        requires
            self.can_add(delta),
        ensures
            sum@ == self@ + delta,
            sum == self.spec_add(delta),
    {
        TickId(self.0 + delta)
    }

    /// The tick `delta` steps earlier. Falling below zero is a caller's
    /// mistake, so the precondition rules it out.
    #[verifier::when_used_as_spec(spec_subtract)]
    pub fn subtract(self, delta: u32) -> (rest: TickId)
        requires
            self.can_subtract(delta),
        ensures
            rest@ == self@ - delta,
            rest == self.spec_subtract(delta),
    {
        TickId(self.0 - delta)
    }

    /// Advances `self` by `delta` steps in place.
    pub fn add_assign(&mut self, delta: u32)
        requires
            old(self).can_add(delta),
        ensures
            final(self)@ == old(self)@ + delta,
            *final(self) == old(self).spec_add(delta),
    {
        self.0 = self.0 + delta;
    }

    /// Moves `self` back by `delta` steps in place.
    pub fn subtract_assign(&mut self, delta: u32)
        requires
            old(self).can_subtract(delta),
        ensures
            final(self)@ == old(self)@ - delta,
            *final(self) == old(self).spec_subtract(delta),
    {
        self.0 = self.0 - delta;
    }

    /// The signed distance from `other` to `self`. Every pair of ticks has
    /// one: the result spans `-u32::MAX ..= u32::MAX`, which an `i64` holds.
    pub fn difference(self, other: TickId) -> (distance: i64)
        ensures
            distance == self@ - other@,
            distance == self.spec_difference(other),
    {
        let left: i64 = self.0 as i64;
        let right: i64 = other.0 as i64;
        left - right
    }

    /// `add` for callers that cannot show the precondition: `None` exactly
    /// when the sum would pass `u32::MAX`.
    pub fn checked_add(self, delta: u32) -> (sum: Option<TickId>)
        ensures
            match sum {
                Some(tick) => self.can_add(delta) && tick == self.spec_add(delta),
                None => !self.can_add(delta),
            },
    {
        if delta <= u32::MAX - self.0 {
            Some(self.add(delta))
        } else {
            None
        }
    }

    /// `subtract` for callers that cannot show the precondition: `None`
    /// exactly when `delta` exceeds the counter.
    pub fn checked_subtract(self, delta: u32) -> (rest: Option<TickId>)
        ensures
            match rest {
                Some(tick) => self.can_subtract(delta) && tick == self.spec_subtract(delta),
                None => !self.can_subtract(delta),
            },
    {
        if delta <= self.0 {
            Some(self.subtract(delta))
        } else {
            None
        }
    }
}

/// Wrapping a counter and reading it back gives the counter, and two ticks
/// with the same counter are the same tick.
pub proof fn lemma_new_then_value(value: u32, tick: TickId)
    ensures
        TickId::new(value).value() == value,
        TickId::new(value)@ == value,
        TickId::new(tick.value()) == tick,
{
}

/// `add` admits a tick and a delta exactly when their sum fits the counter,
/// and then the sum is exact.
pub proof fn lemma_add_range(a: u32, b: u32)
    ensures
        TickId::new(a).can_add(b) <==> a + b <= u32::MAX,
        a + b <= u32::MAX ==> TickId::new(a).add(b).value() == a + b,
{
}

/// `subtract` admits a tick and a delta exactly when the delta does not
/// exceed the counter, and then the rest is exact.
pub proof fn lemma_subtract_range(a: u32, b: u32)
    ensures
        TickId::new(a).can_subtract(b) <==> b <= a,
        b <= a ==> TickId::new(a).subtract(b).value() == a - b,
{
}

/// Adding a delta and subtracting it again, in either order, leads back to
/// the tick.
pub proof fn lemma_add_subtract_cancel(tick: TickId, delta: u32)
    ensures
        tick.can_add(delta) ==> {
            &&& tick.add(delta).can_subtract(delta)
            &&& tick.add(delta).subtract(delta) == tick
        },
        tick.can_subtract(delta) ==> {
            &&& tick.subtract(delta).can_add(delta)
            &&& tick.subtract(delta).add(delta) == tick
        },
{
}

/// The difference of two ticks is the difference of their counters as
/// integers. It lies within `-u32::MAX ..= u32::MAX`, so an `i64` holds it
/// untruncated, and both ends are reached.
pub proof fn lemma_difference_exact(a: u32, b: u32)
    ensures
        TickId::new(a).spec_difference(TickId::new(b)) == a - b,
        -(u32::MAX as int) <= TickId::new(a).spec_difference(TickId::new(b)) <= u32::MAX,
        i64::MIN < TickId::new(a).spec_difference(TickId::new(b)) < i64::MAX,
        TickId::new(0).spec_difference(TickId::new(u32::MAX)) == -4294967295,
        TickId::new(u32::MAX).spec_difference(TickId::new(0)) == 4294967295,
{
}

} // verus!
