//! Hit objects compare by the time at which they are hit, and by nothing else.

use vstd::prelude::*;
use vstd::std_specs::cmp::PartialEqSpec;
use vstd::std_specs::cmp::PartialOrdSpec;
use std::cmp::Ordering;
use crate::hitobject::HitObject;

verus! {

/// The order of two times.
pub open spec fn time_order(a: i32, b: i32) -> Ordering {
    if a < b {
        Ordering::Less
    } else if a == b {
        Ordering::Equal
    } else {
        Ordering::Greater
    }
}

impl PartialEq for HitObject {
    fn eq(&self, other: &HitObject) -> (r: bool) {
        self.start_time == other.start_time
    }
}

impl vstd::std_specs::cmp::PartialEqSpecImpl for HitObject {
    open spec fn obeys_eq_spec() -> bool {
        true
    }

    open spec fn eq_spec(&self, other: &HitObject) -> bool {
        self.start_time == other.start_time
    }
}

impl Eq for HitObject {}

impl PartialOrd for HitObject {
    fn partial_cmp(&self, other: &HitObject) -> (r: Option<Ordering>) {
        if self.start_time < other.start_time {
            Some(Ordering::Less)
        } else if self.start_time == other.start_time {
            Some(Ordering::Equal)
        } else {
            Some(Ordering::Greater)
        }
    }
}

impl vstd::std_specs::cmp::PartialOrdSpecImpl for HitObject {
    open spec fn obeys_partial_cmp_spec() -> bool {
        true
    }

    open spec fn partial_cmp_spec(&self, other: &HitObject) -> Option<Ordering> {
        Some(time_order(self.start_time, other.start_time))
    }
}

/// Two hit objects are equal exactly when they are hit at the same time,
/// and of any two, exactly one comes first, or they are equal, or the
/// second comes first; the order is that of their times.
pub proof fn law_order_by_start_time(a: HitObject, b: HitObject)
    ensures
        a.eq_spec(&b) <==> a.start_time == b.start_time,
        a.partial_cmp_spec(&b) == Some(Ordering::Less) <==> a.start_time < b.start_time,
        a.partial_cmp_spec(&b) == Some(Ordering::Greater) <==> b.start_time < a.start_time,
        a.partial_cmp_spec(&b) == Some(Ordering::Equal) <==> a.eq_spec(&b),
        a.partial_cmp_spec(&b) == Some(Ordering::Less) <==> b.partial_cmp_spec(&a) == Some(
            Ordering::Greater,
        ),
{
}

/// The order of hit objects is transitive.
pub proof fn law_order_transitive(a: HitObject, b: HitObject, c: HitObject)
    requires
        a.partial_cmp_spec(&b) == Some(Ordering::Less),
        b.partial_cmp_spec(&c) == Some(Ordering::Less),
    ensures
        a.partial_cmp_spec(&c) == Some(Ordering::Less),
{
}

} // verus!
