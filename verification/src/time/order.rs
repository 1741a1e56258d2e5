//! Equality and order of times: by the instant, never by the offset.

use vstd::prelude::*;
use vstd::std_specs::cmp::{PartialEqSpec, PartialEqSpecImpl, PartialOrdSpec, PartialOrdSpecImpl};
use core::cmp::Ordering;
use crate::time::{Time, TimeModel};

verus! {

/// How two instants stand to each other: by the seconds, and by the
/// nanoseconds where the seconds agree.
pub open spec fn instant_order(a: TimeModel, b: TimeModel) -> Ordering {
    if a.seconds < b.seconds {
        Ordering::Less
    } else if a.seconds > b.seconds {
        Ordering::Greater
    } else if a.nanoseconds < b.nanoseconds {
        Ordering::Less
    } else if a.nanoseconds > b.nanoseconds {
        Ordering::Greater
    } else {
        Ordering::Equal
    }
}

/// A model of what a time feeds to a hasher: the seconds and the
/// nanoseconds. It is a model only: `hash` hands this pair to the hasher,
/// but no contract ties the two together, and nothing is proved of a
/// hasher's state.
pub open spec fn hash_key(a: TimeModel) -> (int, int) {
    (a.seconds, a.nanoseconds)
}

impl Time {
    /// How this time stands to another in the order of instants.
    pub fn cmp(&self, other: &Time) -> (r: Ordering)
        ensures
            r == instant_order(self@, other@),
    {
        let a: i64 = self.to_int();
        let b: i64 = other.to_int();
        if a < b {
            Ordering::Less
        } else if a > b {
            Ordering::Greater
        } else {
            let x: u32 = self.nanoseconds();
            let y: u32 = other.nanoseconds();
            if x < y {
                Ordering::Less
            } else if x > y {
                Ordering::Greater
            } else {
                Ordering::Equal
            }
        }
    }
}

impl PartialEq for Time {
    fn eq(&self, other: &Time) -> (r: bool) {
        self.to_int() == other.to_int() && self.nanoseconds() == other.nanoseconds()
    }
}

impl PartialEqSpecImpl for Time {
    open spec fn obeys_eq_spec() -> bool {
        true
    }

    open spec fn eq_spec(&self, other: &Time) -> bool {
        self@.seconds == other@.seconds && self@.nanoseconds == other@.nanoseconds
    }
}

impl Eq for Time {

}

impl PartialOrd for Time {
    fn partial_cmp(&self, other: &Time) -> (r: Option<Ordering>) {
        Some(self.cmp(other))
    }
}

impl PartialOrdSpecImpl for Time {
    open spec fn obeys_partial_cmp_spec() -> bool {
        true
    }

    open spec fn partial_cmp_spec(&self, other: &Time) -> Option<Ordering> {
        Some(instant_order(self@, other@))
    }
}

/// Two times at the same instant are equal and stand as equal in the order,
/// whatever offsets they are shown in. Their hash keys agree too; that is
/// said of the model `hash_key` only, not of what a hasher does with it.
pub proof fn lemma_same_instant_same_time(a: Time, b: Time)
    requires
        a@.seconds == b@.seconds,
        a@.nanoseconds == b@.nanoseconds,
    ensures
        PartialEqSpec::eq_spec(&a, &b),
        PartialOrdSpec::partial_cmp_spec(&a, &b) == Some(Ordering::Equal),
        hash_key(a@) == hash_key(b@),
{
}

/// Equality is that of the instants: two times are equal exactly if they
/// stand as equal in the order, and exactly if their hash keys agree. The
/// hash key is the model `hash_key`; of the hashing itself nothing is proved.
pub proof fn lemma_equality_is_of_instants(a: Time, b: Time)
    ensures
        PartialEqSpec::eq_spec(&a, &b) <==> PartialOrdSpec::partial_cmp_spec(&a, &b) == Some(Ordering::Equal),
        PartialEqSpec::eq_spec(&a, &b) <==> hash_key(a@) == hash_key(b@),
{
}

/// The order of instants is that of the nanoseconds since the epoch.
pub proof fn lemma_order_is_of_total_nanoseconds(a: TimeModel, b: TimeModel)
    requires
        a.is_valid(),
        b.is_valid(),
    ensures
        instant_order(a, b) == Ordering::Less <==> a.total_nanoseconds() < b.total_nanoseconds(),
        instant_order(a, b) == Ordering::Equal <==> a.total_nanoseconds() == b.total_nanoseconds(),
        instant_order(a, b) == Ordering::Greater <==> a.total_nanoseconds() > b.total_nanoseconds(),
{
}

/// The order is total and consistent: it is reversed by exchanging the
/// sides, and it is transitive.
pub proof fn lemma_order_laws(a: TimeModel, b: TimeModel, c: TimeModel)
    ensures
        instant_order(a, a) == Ordering::Equal,
        instant_order(a, b) == Ordering::Less <==> instant_order(b, a) == Ordering::Greater,
        instant_order(a, b) == Ordering::Equal <==> instant_order(b, a) == Ordering::Equal,
        instant_order(a, b) == Ordering::Less && instant_order(b, c) == Ordering::Less
            ==> instant_order(a, c) == Ordering::Less,
        instant_order(a, b) == Ordering::Equal && instant_order(b, c) == Ordering::Equal
            ==> instant_order(a, c) == Ordering::Equal,
{
}

} // verus!
