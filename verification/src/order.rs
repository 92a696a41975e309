//! The order of ticks: that of their counters.

use crate::tick::TickId;
use core::cmp::Ordering;
use vstd::prelude::*;
use vstd::std_specs::cmp::PartialOrdIs;
use vstd::std_specs::cmp::PartialOrdSpec;

verus! {

impl PartialOrd for TickId {
    /// Always `Some`: any two ticks compare, by their counters.
    fn partial_cmp(&self, other: &TickId) -> (order: Option<Ordering>) {
        if self.0 < other.0 {
            Some(Ordering::Less)
        } else if self.0 == other.0 {
            Some(Ordering::Equal)
        } else {
            Some(Ordering::Greater)
        }
    }
}

impl vstd::std_specs::cmp::PartialOrdSpecImpl for TickId {
    open spec fn obeys_partial_cmp_spec() -> bool {
        true
    }

    open spec fn partial_cmp_spec(&self, other: &TickId) -> Option<Ordering> {
        if self@ < other@ {
            Some(Ordering::Less)
        } else if self@ == other@ {
            Some(Ordering::Equal)
        } else {
            Some(Ordering::Greater)
        }
    }
}

/// The comparison operators on ticks decide as the same operators do on the
/// counters, and two ticks are equal exactly when their counters are.
pub proof fn lemma_order_follows_value(a: TickId, b: TickId)
    ensures
        a.is_lt(&b) <==> a@ < b@,
        a.is_le(&b) <==> a@ <= b@,
        a.is_gt(&b) <==> a@ > b@,
        a.is_ge(&b) <==> a@ >= b@,
        a == b <==> a@ == b@,
{
}

/// `<` on ticks is a strict total order: no tick precedes itself, of two
/// distinct ticks exactly one precedes the other, and precedence carries
/// over a tick in between.
pub proof fn lemma_order_is_strict_and_total(a: TickId, b: TickId, c: TickId)
    ensures
        !a.is_lt(&a),
        a.is_lt(&b) ==> !b.is_lt(&a),
        a.is_lt(&b) || a == b || b.is_lt(&a),
        a.is_lt(&b) && b.is_lt(&c) ==> a.is_lt(&c),
        a.is_le(&b) <==> a.is_lt(&b) || a == b,
        a.is_gt(&b) <==> b.is_lt(&a),
        a.is_ge(&b) <==> b.is_le(&a),
{
}

} // verus!
