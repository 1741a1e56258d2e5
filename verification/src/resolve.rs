//! Finding the instant that wall-clock components name in a zone, and the
//! wall-clock reading of an instant.
//!
//! The zone rules answer with a list of candidates. A reading that falls
//! into a backward transition of the clock names more than one instant, and
//! the earliest of them is taken. A reading that falls into a forward
//! transition, or that is no date of the calendar, names none.

use vstd::prelude::*;
use tz::timezone::TimeZoneRef;
use crate::args::Args;
use crate::offset::Offset;
use crate::time::TimeError;
use crate::zone::{
    civil_at,
    find_candidates,
    fixed_zone,
    local_zone,
    named_zone,
    reading_at,
    readings_found,
    zone_ref,
    Candidate,
    Civil,
};

verus! {

/// The least instant among the candidates, if any of them is an instant.
pub open spec fn earliest_instant(candidates: Seq<Candidate>) -> Option<i64>
    decreases candidates.len(),
{
    if candidates.len() == 0 {
        None
    } else {
        let before = earliest_instant(candidates.drop_last());
        match candidates.last() {
            Candidate::Instant(seconds) => match before {
                Some(least) if least <= seconds => Some(least),
                _ => Some(seconds),
            },
            Candidate::Skipped { .. } => before,
        }
    }
}

/// Picks the earliest instant among the candidates.
pub fn earliest(candidates: &Vec<Candidate>) -> (r: Option<i64>)
    ensures
        r == earliest_instant(candidates@),
{
    let mut least: Option<i64> = None;
    let mut seen: usize = 0;
    assert(candidates@.take(0) =~= Seq::<Candidate>::empty());
    while seen < candidates.len()
        invariant
            seen <= candidates.len(),
            least == earliest_instant(candidates@.take(seen as int)),
        decreases candidates.len() - seen,
    {
        proof {
            let next = candidates@.take(seen + 1);
            assert(next.drop_last() =~= candidates@.take(seen as int));
            assert(next.last() == candidates@[seen as int]);
        }
        match candidates[seen] {
            Candidate::Instant(seconds) => {
                least = match least {
                    Some(known) if known <= seconds => Some(known),
                    _ => Some(seconds),
                };
            },
            Candidate::Skipped { .. } => {},
        }
        seen += 1;
    }
    assert(candidates@.take(seen as int) =~= candidates@);
    least
}

/// A reading that names several instants resolves to the earliest of them:
/// what is picked is one of the candidate instants, and none of them lies
/// before it.
pub proof fn lemma_earliest_is_least(candidates: Seq<Candidate>)
    requires
        earliest_instant(candidates) is Some,
    ensures
        candidates.contains(Candidate::Instant(earliest_instant(candidates)->Some_0)),
        forall|k: int|
            0 <= k < candidates.len() ==> (#[trigger] candidates[k] matches Candidate::Instant(
                seconds,
            ) ==> earliest_instant(candidates)->Some_0 <= seconds),
    decreases candidates.len(),
{
    let before = candidates.drop_last();
    let least = earliest_instant(candidates)->Some_0;
    lemma_earliest_exists(before);
    if earliest_instant(before) is Some {
        lemma_earliest_is_least(before);
        let kept = earliest_instant(before)->Some_0;
        if least == kept {
            let at = choose|k: int| 0 <= k < before.len() && before[k] == Candidate::Instant(kept);
            assert(candidates[at] == Candidate::Instant(least));
        }
    }
    if candidates.last() == Candidate::Instant(least) {
        assert(candidates[candidates.len() - 1] == Candidate::Instant(least));
    }
    assert forall|k: int| 0 <= k < candidates.len() implies (
    #[trigger] candidates[k] matches Candidate::Instant(seconds) ==> least <= seconds) by {
        if k < before.len() {
            assert(before[k] == candidates[k]);
            if candidates[k] is Instant {
                assert(before[k] is Instant);
                assert(earliest_instant(before) is Some);
            }
        } else {
            assert(candidates[k] == candidates.last());
        }
    }
}

/// A reading resolves to an instant exactly if some candidate is one: where
/// every candidate was skipped by a forward transition, or there is none,
/// nothing is picked.
pub proof fn lemma_earliest_exists(candidates: Seq<Candidate>)
    ensures
        earliest_instant(candidates) is Some <==> exists|k: int|
            0 <= k < candidates.len() && #[trigger] candidates[k] is Instant,
    decreases candidates.len(),
{
    if candidates.len() > 0 {
        let before = candidates.drop_last();
        lemma_earliest_exists(before);
        if earliest_instant(candidates) is Some {
            if candidates.last() is Instant {
                assert(candidates[candidates.len() - 1] is Instant);
            } else {
                let at = choose|k: int| 0 <= k < before.len() && #[trigger] before[k] is Instant;
                assert(candidates[at] is Instant);
            }
        }
        if exists|k: int| 0 <= k < candidates.len() && #[trigger] candidates[k] is Instant {
            let at = choose|k: int| 0 <= k < candidates.len() && #[trigger] candidates[k] is Instant;
            if at < before.len() {
                assert(before[at] is Instant);
            }
        }
    }
}

/// What the rules of `zone` list for the components: the instants that the
/// components name there, and the transitions that skipped them.
pub open spec fn found_in(components: Args, zone: TimeZoneRef<'static>) -> Seq<Candidate> {
    readings_found(
        components.year,
        components.month,
        components.day,
        components.hour,
        components.minute,
        components.second,
        components.nanoseconds,
        zone,
    )
}

/// What reading an instant off the wall clock of `zone` gives: the reading,
/// or `ZoneResolution` where the instant has none.
pub open spec fn read_in(seconds: i64, nanoseconds: u32, zone: TimeZoneRef<'static>) -> Result<
    Civil,
    TimeError,
> {
    match reading_at(seconds, nanoseconds, zone) {
        Some(civil) => Ok(civil),
        None => Err(TimeError::ZoneResolution),
    }
}

/// Asks the rules of `zone` which instants the components name. Components
/// that are no date of the calendar give an empty list.
fn candidates_in(components: &Args, zone: TimeZoneRef<'_>) -> (r: Vec<Candidate>)
    ensures
        r@ == found_in(*components, zone),
{
    let found = find_candidates(
        components.year,
        components.month,
        components.day,
        components.hour,
        components.minute,
        components.second,
        components.nanoseconds,
        zone,
    );
    match found {
        Ok(list) => list,
        Err(_) => Vec::new(),
    }
}

/// Asks the rules of the offset's zone which instants the components name.
///
/// The call fails only where the zone's rules cannot be had. Otherwise the
/// list is the one that the rules of the offset's zone give for exactly
/// these components; for `Local` the zone is the one that the machine names.
pub fn candidates_for(components: &Args, offset: Offset) -> (r: Result<Vec<Candidate>, TimeError>)
    ensures
        r matches Err(e) ==> e == TimeError::ZoneUnavailable,
        offset.obtainable() matches Some(known) ==> (r is Ok <==> known),
        r matches Ok(list) ==> exists|zone: TimeZoneRef<'static>|
            offset.answers_with(zone) && list@ == #[trigger] found_in(*components, zone),
{
    match offset {
        Offset::Utc => match fixed_zone(0) {
            Ok(rules) => Ok(candidates_in(components, zone_ref(&rules))),
            Err(_) => Err(TimeError::ZoneUnavailable),
        },
        Offset::Fixed(seconds) => match fixed_zone(seconds) {
            Ok(rules) => Ok(candidates_in(components, zone_ref(&rules))),
            Err(_) => Err(TimeError::ZoneUnavailable),
        },
        Offset::Named(name) => match named_zone(name) {
            Some(zone) => Ok(candidates_in(components, zone)),
            None => Err(TimeError::ZoneUnavailable),
        },
        Offset::Local => match local_zone() {
            Some(zone) => Ok(candidates_in(components, zone)),
            None => Err(TimeError::ZoneUnavailable),
        },
    }
}

/// Reads an instant off the wall clock of `zone`.
fn civil_in(seconds: i64, nanoseconds: u32, zone: TimeZoneRef<'_>) -> (r: Result<Civil, TimeError>)
    ensures
        r == read_in(seconds, nanoseconds, zone),
        r matches Ok(civil) ==> civil.in_calendar_ranges(),
{
    match civil_at(seconds, nanoseconds, zone) {
        Ok(civil) => Ok(civil),
        Err(_) => Err(TimeError::ZoneResolution),
    }
}

/// Reads an instant off the wall clock of the offset's zone.
///
/// The call fails where the zone's rules cannot be had, and where the
/// instant lies outside the years that the calendar can express. Otherwise
/// the reading is the one that the rules of the offset's zone give for
/// exactly this instant; for `Local` the zone is the one that the machine
/// names.
pub fn civil_for(seconds: i64, nanoseconds: u32, offset: Offset) -> (r: Result<Civil, TimeError>)
    ensures
        r matches Ok(civil) ==> civil.in_calendar_ranges(),
        r matches Err(e) ==> e == TimeError::ZoneUnavailable || e == TimeError::ZoneResolution,
        offset.obtainable() matches Some(known) ==> (r == Err::<Civil, TimeError>(
            TimeError::ZoneUnavailable,
        ) <==> !known),
        r == Err::<Civil, TimeError>(TimeError::ZoneUnavailable) || exists|
            zone: TimeZoneRef<'static>,
        |
            offset.answers_with(zone) && r == #[trigger] read_in(seconds, nanoseconds, zone),
{
    match offset {
        Offset::Utc => match fixed_zone(0) {
            Ok(rules) => civil_in(seconds, nanoseconds, zone_ref(&rules)),
            Err(_) => Err(TimeError::ZoneUnavailable),
        },
        Offset::Fixed(ahead) => match fixed_zone(ahead) {
            Ok(rules) => civil_in(seconds, nanoseconds, zone_ref(&rules)),
            Err(_) => Err(TimeError::ZoneUnavailable),
        },
        Offset::Named(name) => match named_zone(name) {
            Some(zone) => civil_in(seconds, nanoseconds, zone),
            None => Err(TimeError::ZoneUnavailable),
        },
        Offset::Local => match local_zone() {
            Some(zone) => civil_in(seconds, nanoseconds, zone),
            None => Err(TimeError::ZoneUnavailable),
        },
    }
}

} // verus!
