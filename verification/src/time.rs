//! The time value: an instant, and the offset that it is shown in.

use vstd::prelude::*;
use core::hash::{Hash, Hasher};
use tz::timezone::TimeZoneRef;
use crate::args::Args;
use crate::offset::{hhmm, render_hhmm, Offset};
use crate::resolve::{
    candidates_for,
    civil_for,
    earliest,
    earliest_instant,
    found_in,
    lemma_earliest_exists,
    lemma_earliest_is_least,
    read_in,
};
use crate::zone::{clock_reading, local_zone, readings_found, Candidate, Civil};

pub mod math;
pub mod order;

verus! {

/// Number of nanoseconds in one second.
pub const NANOS_IN_SECOND: u32 = 1_000_000_000;

/// Why a time could not be made or read.
#[derive(Clone, Copy, Debug, PartialEq, Eq)]
pub enum TimeError {
    /// The wall-clock components name no instant under the offset, or the
    /// instant has no wall-clock reading there.
    ZoneResolution,
    /// The nanoseconds are not below one second.
    ComponentRange,
    /// The rules of the offset's zone could not be had.
    ZoneUnavailable,
    /// The system clock could not be read.
    ClockUnavailable,
}

/// What a time is: whole seconds since the Unix epoch, the nanoseconds
/// beyond them, and the offset for display.
pub struct TimeModel {
    pub seconds: int,
    pub nanoseconds: int,
    pub offset: Offset,
}

/// A moment in time, to the nanosecond, with the offset that it is shown in.
///
/// A time is never changed: arithmetic gives a new one. Equality, order and
/// hashing go by the instant alone.
#[derive(Clone, Copy, Debug)]
pub struct Time {
    seconds: i64,
    nanoseconds: u32,
    offset: Offset,
}

/// The components of a time without its sub-second part.
#[derive(Clone, Copy, Debug, PartialEq, Eq)]
pub struct ToA {
    pub sec: u8,
    pub min: u8,
    pub hour: u8,
    pub day: u8,
    pub month: u8,
    pub year: i32,
    pub zone: Offset,
}

impl View for Time {
    type V = TimeModel;

    closed spec fn view(&self) -> TimeModel {
        TimeModel {
            seconds: self.seconds as int,
            nanoseconds: self.nanoseconds as int,
            offset: self.offset,
        }
    }
}

impl TimeModel {
    /// Seconds fit 64 bits and the nanoseconds are below one second.
    pub open spec fn is_valid(self) -> bool {
        &&& i64::MIN <= self.seconds <= i64::MAX
        &&& 0 <= self.nanoseconds <= 999_999_999
    }

    /// Nanoseconds since the Unix epoch.
    pub open spec fn total_nanoseconds(self) -> int {
        self.seconds * 1_000_000_000 + self.nanoseconds
    }

    /// What reading this instant off the wall clock of `zone` gives.
    pub open spec fn reading_in(self, zone: TimeZoneRef<'static>) -> Result<Civil, TimeError> {
        read_in(self.seconds as i64, self.nanoseconds as u32, zone)
    }
}

/// A result with the time in it replaced by what the time is.
pub open spec fn seen(r: Result<Time, TimeError>) -> Result<TimeModel, TimeError> {
    match r {
        Ok(time) => Ok(time@),
        Err(e) => Err(e),
    }
}

/// What a list of candidates resolves to: the earliest instant in it, with
/// the nanoseconds and the offset asked for. No instant, or nanoseconds of a
/// second or more, resolve to nothing.
pub open spec fn resolved(candidates: Seq<Candidate>, nanoseconds: u32, offset: Offset) -> Result<
    TimeModel,
    TimeError,
> {
    match earliest_instant(candidates) {
        Some(seconds) if nanoseconds <= 999_999_999 => Ok(
            TimeModel { seconds: seconds as int, nanoseconds: nanoseconds as int, offset },
        ),
        _ => Err(TimeError::ZoneResolution),
    }
}

/// How a wall-clock reading is resolved. A reading that names several
/// instants, as inside a backward transition of the clock, resolves to the
/// earliest of them. A reading that names none, as inside a forward
/// transition, fails with `ZoneResolution`.
pub proof fn lemma_resolution_policy(candidates: Seq<Candidate>, nanoseconds: u32, offset: Offset)
    requires
        nanoseconds <= 999_999_999,
    ensures
        (forall|k: int| 0 <= k < candidates.len() ==> !(#[trigger] candidates[k] is Instant))
            ==> resolved(candidates, nanoseconds, offset) == Err::<TimeModel, TimeError>(
            TimeError::ZoneResolution,
        ),
        (exists|k: int| 0 <= k < candidates.len() && #[trigger] candidates[k] is Instant) ==> {
            &&& resolved(candidates, nanoseconds, offset) matches Ok(time)
            &&& time.nanoseconds == nanoseconds
            &&& time.offset == offset
            &&& exists|k: int|
                0 <= k < candidates.len() && #[trigger] candidates[k] == Candidate::Instant(
                    time.seconds as i64,
                )
            &&& forall|k: int|
                0 <= k < candidates.len() ==> (#[trigger] candidates[k] matches Candidate::Instant(
                    seconds,
                ) ==> time.seconds <= seconds)
        },
{
    lemma_earliest_exists(candidates);
    if earliest_instant(candidates) is Some {
        lemma_earliest_is_least(candidates);
        let least = earliest_instant(candidates)->Some_0;
        let at = choose|k: int|
            0 <= k < candidates.len() && candidates[k] == Candidate::Instant(least);
        assert(candidates[at] == Candidate::Instant(least));
    }
}

/// The array form of a wall-clock reading in a given offset.
pub open spec fn array_form(civil: Civil, offset: Offset) -> ToA {
    ToA {
        sec: civil.second,
        min: civil.minute,
        hour: civil.hour,
        day: civil.day,
        month: civil.month,
        year: civil.year,
        zone: offset,
    }
}

impl Time {
    #[verifier::type_invariant]
    spec fn well_formed(self) -> bool {
        self.nanoseconds <= 999_999_999
    }

    /// The time that wall-clock components name under an offset.
    ///
    /// The rules of the offset's zone say which instants the components
    /// name. Of several the earliest is taken. Where they name none, as
    /// inside a forward transition of the clock or on a day that the month
    /// does not have, the call fails with `ZoneResolution`.
    pub fn new(
        year: i32,
        month: u8,
        day: u8,
        hour: u8,
        minute: u8,
        second: u8,
        nanoseconds: u32,
        offset: Offset,
    ) -> (r: Result<Time, TimeError>)
        ensures
            match r {
                Ok(time) => time@.nanoseconds == nanoseconds && time@.offset == offset
                    && time@.is_valid(),
                Err(e) => e == TimeError::ZoneUnavailable || e == TimeError::ZoneResolution,
            },
            offset.obtainable() matches Some(known) ==> (r matches Err(
                TimeError::ZoneUnavailable,
            ) <==> !known),
            nanoseconds > 999_999_999 ==> r is Err,
            r matches Err(TimeError::ZoneUnavailable) || exists|zone: TimeZoneRef<'static>|
                offset.answers_with(zone) && seen(r) == resolved(
                    #[trigger] readings_found(
                        year,
                        month,
                        day,
                        hour,
                        minute,
                        second,
                        nanoseconds,
                        zone,
                    ),
                    nanoseconds,
                    offset,
                ),
    {
        Time::from_components(
            &Args { year, month, day, hour, minute, second, nanoseconds },
            offset,
        )
    }

    /// The time that a record of wall-clock components names under an
    /// offset: what the list that the rules of the offset's zone give for
    /// the components resolves to.
    pub fn from_components(components: &Args, offset: Offset) -> (r: Result<Time, TimeError>)
        ensures
            match r {
                Ok(time) => time@.nanoseconds == components.nanoseconds && time@.offset == offset
                    && time@.is_valid(),
                Err(e) => e == TimeError::ZoneUnavailable || e == TimeError::ZoneResolution,
            },
            offset.obtainable() matches Some(known) ==> (r matches Err(
                TimeError::ZoneUnavailable,
            ) <==> !known),
            components.nanoseconds > 999_999_999 ==> r is Err,
            r matches Err(TimeError::ZoneUnavailable) || exists|zone: TimeZoneRef<'static>|
                offset.answers_with(zone) && seen(r) == resolved(
                    #[trigger] found_in(*components, zone),
                    components.nanoseconds,
                    offset,
                ),
    {
        match candidates_for(components, offset) {
            Ok(candidates) => Time::from_candidates(&candidates, components.nanoseconds, offset),
            Err(e) => Err(e),
        }
    }

    /// The time that a list of candidate instants resolves to.
    pub fn from_candidates(candidates: &Vec<Candidate>, nanoseconds: u32, offset: Offset) -> (r:
        Result<Time, TimeError>)
        ensures
            seen(r) == resolved(candidates@, nanoseconds, offset),
    {
        if nanoseconds >= NANOS_IN_SECOND {
            return Err(TimeError::ZoneResolution);
        }
        match earliest(candidates) {
            Some(seconds) => Ok(Time { seconds, nanoseconds, offset }),
            None => Err(TimeError::ZoneResolution),
        }
    }

    /// The time at a reading of the clock, shown in the zone of the machine.
    pub fn at_clock_reading(seconds: i64, nanoseconds: u32) -> (r: Time)
        requires
            nanoseconds <= 999_999_999,
        ensures
            r@ == (TimeModel {
                seconds: seconds as int,
                nanoseconds: nanoseconds as int,
                offset: Offset::Local,
            }),
    {
        Time { seconds, nanoseconds, offset: Offset::Local }
    }

    /// The present instant in the zone of the machine: what
    /// `at_clock_reading` makes of the clock's reading. Fails where the zone
    /// of the machine or the clock cannot be read.
    pub fn now() -> (r: Result<Time, TimeError>)
        ensures
            match r {
                Ok(time) => time@.offset == Offset::Local && time@.is_valid(),
                Err(e) => e == TimeError::ZoneUnavailable || e == TimeError::ClockUnavailable,
            },
    {
        let zone = match local_zone() {
            Some(zone) => zone,
            None => {
                return Err(TimeError::ZoneUnavailable);
            },
        };
        match clock_reading(zone) {
            Ok((seconds, nanoseconds)) => Ok(Time::at_clock_reading(seconds, nanoseconds)),
            Err(_) => Err(TimeError::ClockUnavailable),
        }
    }

    /// The time at `seconds` and `nanoseconds` since the Unix epoch, shown
    /// in `offset`.
    ///
    /// Nanoseconds of a second or more are refused with `ComponentRange`.
    /// Otherwise the call fails only where the rules of the offset's zone
    /// cannot be had, with `ZoneUnavailable`.
    pub fn with_timespec_and_offset(seconds: i64, nanoseconds: u32, offset: Offset) -> (r: Result<
        Time,
        TimeError,
    >)
        ensures
            match r {
                Ok(time) => time@ == (TimeModel {
                    seconds: seconds as int,
                    nanoseconds: nanoseconds as int,
                    offset,
                }) && time@.is_valid(),
                Err(e) => e == (if nanoseconds > 999_999_999 {
                    TimeError::ComponentRange
                } else {
                    TimeError::ZoneUnavailable
                }),
            },
            nanoseconds > 999_999_999 ==> r is Err,
            nanoseconds <= 999_999_999 ==> (offset.obtainable() matches Some(known) ==> (r is Ok
                <==> known)),
    {
        if nanoseconds >= NANOS_IN_SECOND {
            return Err(TimeError::ComponentRange);
        }
        if !offset.is_obtainable() {
            return Err(TimeError::ZoneUnavailable);
        }
        Ok(Time { seconds, nanoseconds, offset })
    }

    /// The time that the components of an array form name in its zone, at
    /// the start of the second: an array form holds no sub-second part, so a
    /// time that went through one comes back with zero nanoseconds.
    pub fn from(to_a: ToA) -> (r: Result<Time, TimeError>)
        ensures
            match r {
                Ok(time) => time@.nanoseconds == 0 && time@.offset == to_a.zone && time@.is_valid(),
                Err(e) => e == TimeError::ZoneUnavailable || e == TimeError::ZoneResolution,
            },
            to_a.zone.obtainable() matches Some(known) ==> (r matches Err(
                TimeError::ZoneUnavailable,
            ) <==> !known),
            r matches Err(TimeError::ZoneUnavailable) || exists|zone: TimeZoneRef<'static>|
                to_a.zone.answers_with(zone) && seen(r) == resolved(
                    #[trigger] readings_found(
                        to_a.year,
                        to_a.month,
                        to_a.day,
                        to_a.hour,
                        to_a.min,
                        to_a.sec,
                        0,
                        zone,
                    ),
                    0,
                    to_a.zone,
                ),
    {
        Time::new(to_a.year, to_a.month, to_a.day, to_a.hour, to_a.min, to_a.sec, 0, to_a.zone)
    }

    /// Whole seconds since the Unix epoch, rounded towards the past.
    pub fn to_int(&self) -> (r: i64)
        ensures
            r == self@.seconds,
    {
        self.seconds
    }

    /// The nanoseconds beyond the whole seconds.
    pub fn nanoseconds(&self) -> (r: u32)
        ensures
            r == self@.nanoseconds,
            r <= 999_999_999,
    {
        proof {
            use_type_invariant(self);
        }
        self.nanoseconds
    }

    /// The offset that the time is shown in.
    pub fn offset(&self) -> (r: Offset)
        ensures
            r == self@.offset,
    {
        self.offset
    }

    /// Whether the time is shown in UTC.
    pub fn is_utc(&self) -> (r: bool)
        ensures
            r == (self@.offset == Offset::Utc),
    {
        self.offset.is_utc()
    }

    /// The sub-second part as a fraction of a second that is not reduced:
    /// the nanoseconds over the nanoseconds in a second.
    pub fn subsec_fractional(&self) -> (r: (u32, u32))
        ensures
            r.0 == self@.nanoseconds,
            r.1 == 1_000_000_000,
            r.0 < r.1,
    {
        proof {
            use_type_invariant(self);
        }
        (self.nanoseconds, NANOS_IN_SECOND)
    }

    /// Nanoseconds since the Unix epoch.
    pub fn total_nanoseconds(&self) -> (r: i128)
        ensures
            r == self@.total_nanoseconds(),
            self@.is_valid(),
    {
        proof {
            use_type_invariant(self);
        }
        let seconds: i128 = self.seconds as i128;
        let nanoseconds: i128 = self.nanoseconds as i128;
        seconds * 1_000_000_000 + nanoseconds
    }

    /// The time with its instant moved by `seconds`, the nanoseconds and
    /// the offset as they are.
    pub closed spec fn shifted(self, seconds: int) -> Time {
        Time {
            seconds: (self.seconds + seconds) as i64,
            nanoseconds: self.nanoseconds,
            offset: self.offset,
        }
    }

    /// Moving a time changes its seconds and nothing else, as long as they
    /// fit 64 bits.
    pub proof fn lemma_shifted(self, seconds: int)
        requires
            i64::MIN <= self@.seconds + seconds <= i64::MAX,
        ensures
            self.shifted(seconds)@ == (TimeModel { seconds: self@.seconds + seconds, ..self@ }),
    {
    }

    /// Moving a time forth and back by the same seconds gives the time
    /// itself.
    pub proof fn lemma_shift_back(self, seconds: int)
        requires
            i64::MIN <= self@.seconds + seconds <= i64::MAX,
        ensures
            self.shifted(seconds).shifted(-seconds) == self,
    {
    }

    /// The time `seconds` later, with the same nanoseconds and offset;
    /// `None` where the seconds since the epoch would leave 64 bits.
    pub fn checked_add(&self, seconds: i64) -> (r: Option<Time>)
        ensures
            r is Some <==> i64::MIN <= self@.seconds + seconds <= i64::MAX,
            r matches Some(time) ==> time == self.shifted(seconds as int) && time@ == (TimeModel {
                seconds: self@.seconds + seconds,
                ..self@
            }),
    {
        proof {
            use_type_invariant(self);
        }
        match self.seconds.checked_add(seconds) {
            Some(sum) => Some(
                Time { seconds: sum, nanoseconds: self.nanoseconds, offset: self.offset },
            ),
            None => None,
        }
    }

    /// The time `seconds` earlier, with the same nanoseconds and offset;
    /// `None` where the seconds since the epoch would leave 64 bits.
    pub fn checked_sub(&self, seconds: i64) -> (r: Option<Time>)
        ensures
            r is Some <==> i64::MIN <= self@.seconds - seconds <= i64::MAX,
            r matches Some(time) ==> time == self.shifted(-seconds) && time@ == (TimeModel {
                seconds: self@.seconds - seconds,
                ..self@
            }),
    {
        proof {
            use_type_invariant(self);
        }
        match self.seconds.checked_sub(seconds) {
            Some(difference) => Some(
                Time { seconds: difference, nanoseconds: self.nanoseconds, offset: self.offset },
            ),
            None => None,
        }
    }

    /// This time at another count of seconds.
    pub(crate) fn at_seconds(&self, seconds: i64) -> (r: Time)
        ensures
            r == self.shifted(seconds - self@.seconds),
            r@ == (TimeModel { seconds: seconds as int, ..self@ }),
    {
        proof {
            use_type_invariant(self);
        }
        Time { seconds, nanoseconds: self.nanoseconds, offset: self.offset }
    }

    /// The array form of a wall-clock reading in a given offset.
    pub fn array_of(civil: Civil, offset: Offset) -> (r: ToA)
        ensures
            r == array_form(civil, offset),
    {
        ToA {
            sec: civil.second,
            min: civil.minute,
            hour: civil.hour,
            day: civil.day,
            month: civil.month,
            year: civil.year,
            zone: offset,
        }
    }

    /// The components of the time on the wall clock of its offset, read off
    /// the zone rules at the time of the call. The sub-second part is lost.
    pub fn to_array(&self) -> (r: Result<ToA, TimeError>)
        ensures
            match r {
                Ok(to_a) => to_a.zone == self@.offset && 1 <= to_a.month <= 12 && 1 <= to_a.day
                    <= 31 && to_a.hour <= 23 && to_a.min <= 59 && to_a.sec <= 60,
                Err(e) => e == TimeError::ZoneUnavailable || e == TimeError::ZoneResolution,
            },
            self@.offset.obtainable() matches Some(known) ==> (r matches Err(
                TimeError::ZoneUnavailable,
            ) <==> !known),
            r matches Err(TimeError::ZoneUnavailable) || exists|zone: TimeZoneRef<'static>|
                self@.offset.answers_with(zone) && r == (match #[trigger] self@.reading_in(zone) {
                    Ok(civil) => Ok::<ToA, TimeError>(array_form(civil, self@.offset)),
                    Err(e) => Err(e),
                }),
    {
        match self.civil() {
            Ok(civil) => Ok(Time::array_of(civil, self.offset)),
            Err(e) => Err(e),
        }
    }

    /// The time on the wall clock of its offset, read off the zone rules at
    /// the time of the call: the reading that the rules of the offset's zone
    /// give for this instant.
    pub fn civil(&self) -> (r: Result<Civil, TimeError>)
        ensures
            r matches Ok(civil) ==> civil.in_calendar_ranges(),
            r matches Err(e) ==> e == TimeError::ZoneUnavailable || e == TimeError::ZoneResolution,
            self@.offset.obtainable() matches Some(known) ==> (r matches Err(
                TimeError::ZoneUnavailable,
            ) <==> !known),
            r matches Err(TimeError::ZoneUnavailable) || exists|zone: TimeZoneRef<'static>|
                self@.offset.answers_with(zone) && r == #[trigger] self@.reading_in(zone),
    {
        let reading = civil_for(self.seconds, self.nanoseconds, self.offset);
        proof {
            if reading != Err::<Civil, TimeError>(TimeError::ZoneUnavailable) {
                let zone = choose|zone: TimeZoneRef<'static>|
                    self.offset.answers_with(zone) && reading == #[trigger] read_in(
                        self.seconds,
                        self.nanoseconds,
                        zone,
                    );
                assert(self@.reading_in(zone) == read_in(self.seconds, self.nanoseconds, zone));
            }
        }
        reading
    }

    /// The year on the wall clock of the offset, read off the zone rules at
    /// the time of the call. Fails with `ZoneUnavailable` exactly where the
    /// rules cannot be had, and with `ZoneResolution` where the instant has no
    /// reading in the calendar.
    pub fn year(&self) -> (r: Result<i32, TimeError>)
        ensures
            r matches Err(e) ==> e == TimeError::ZoneUnavailable || e == TimeError::ZoneResolution,
            self@.offset.obtainable() matches Some(known) ==> (r matches Err(
                TimeError::ZoneUnavailable,
            ) <==> !known),
            r matches Err(TimeError::ZoneUnavailable) || exists|zone: TimeZoneRef<'static>|
                self@.offset.answers_with(zone) && r == (match #[trigger] self@.reading_in(zone) {
                    Ok(civil) => Ok::<i32, TimeError>(civil.year),
                    Err(e) => Err(e),
                }),
    {
        match self.civil() {
            Ok(civil) => Ok(civil.year),
            Err(e) => Err(e),
        }
    }

    /// The month on the wall clock of the offset, from 1 to 12, read off the
    /// zone rules at the time of the call. Fails as `year` does.
    pub fn month(&self) -> (r: Result<u8, TimeError>)
        ensures
            r matches Ok(month) ==> 1 <= month <= 12,
            r matches Err(e) ==> e == TimeError::ZoneUnavailable || e == TimeError::ZoneResolution,
            self@.offset.obtainable() matches Some(known) ==> (r matches Err(
                TimeError::ZoneUnavailable,
            ) <==> !known),
            r matches Err(TimeError::ZoneUnavailable) || exists|zone: TimeZoneRef<'static>|
                self@.offset.answers_with(zone) && r == (match #[trigger] self@.reading_in(zone) {
                    Ok(civil) => Ok::<u8, TimeError>(civil.month),
                    Err(e) => Err(e),
                }),
    {
        match self.civil() {
            Ok(civil) => Ok(civil.month),
            Err(e) => Err(e),
        }
    }

    /// The day of the month on the wall clock of the offset, from 1 to 31,
    /// read off the zone rules at the time of the call. Fails as `year` does.
    pub fn day(&self) -> (r: Result<u8, TimeError>)
        ensures
            r matches Ok(day) ==> 1 <= day <= 31,
            r matches Err(e) ==> e == TimeError::ZoneUnavailable || e == TimeError::ZoneResolution,
            self@.offset.obtainable() matches Some(known) ==> (r matches Err(
                TimeError::ZoneUnavailable,
            ) <==> !known),
            r matches Err(TimeError::ZoneUnavailable) || exists|zone: TimeZoneRef<'static>|
                self@.offset.answers_with(zone) && r == (match #[trigger] self@.reading_in(zone) {
                    Ok(civil) => Ok::<u8, TimeError>(civil.day),
                    Err(e) => Err(e),
                }),
    {
        match self.civil() {
            Ok(civil) => Ok(civil.day),
            Err(e) => Err(e),
        }
    }

    /// The hour on the wall clock of the offset, from 0 to 23, read off the
    /// zone rules at the time of the call. Fails as `year` does.
    pub fn hour(&self) -> (r: Result<u8, TimeError>)
        ensures
            r matches Ok(hour) ==> hour <= 23,
            r matches Err(e) ==> e == TimeError::ZoneUnavailable || e == TimeError::ZoneResolution,
            self@.offset.obtainable() matches Some(known) ==> (r matches Err(
                TimeError::ZoneUnavailable,
            ) <==> !known),
            r matches Err(TimeError::ZoneUnavailable) || exists|zone: TimeZoneRef<'static>|
                self@.offset.answers_with(zone) && r == (match #[trigger] self@.reading_in(zone) {
                    Ok(civil) => Ok::<u8, TimeError>(civil.hour),
                    Err(e) => Err(e),
                }),
    {
        match self.civil() {
            Ok(civil) => Ok(civil.hour),
            Err(e) => Err(e),
        }
    }

    /// The minute on the wall clock of the offset, from 0 to 59, read off the
    /// zone rules at the time of the call. Fails as `year` does.
    pub fn minute(&self) -> (r: Result<u8, TimeError>)
        ensures
            r matches Ok(minute) ==> minute <= 59,
            r matches Err(e) ==> e == TimeError::ZoneUnavailable || e == TimeError::ZoneResolution,
            self@.offset.obtainable() matches Some(known) ==> (r matches Err(
                TimeError::ZoneUnavailable,
            ) <==> !known),
            r matches Err(TimeError::ZoneUnavailable) || exists|zone: TimeZoneRef<'static>|
                self@.offset.answers_with(zone) && r == (match #[trigger] self@.reading_in(zone) {
                    Ok(civil) => Ok::<u8, TimeError>(civil.minute),
                    Err(e) => Err(e),
                }),
    {
        match self.civil() {
            Ok(civil) => Ok(civil.minute),
            Err(e) => Err(e),
        }
    }

    /// The second on the wall clock of the offset, from 0 to 60, read off the
    /// zone rules at the time of the call. Fails as `year` does.
    pub fn second(&self) -> (r: Result<u8, TimeError>)
        ensures
            r matches Ok(second) ==> second <= 60,
            r matches Err(e) ==> e == TimeError::ZoneUnavailable || e == TimeError::ZoneResolution,
            self@.offset.obtainable() matches Some(known) ==> (r matches Err(
                TimeError::ZoneUnavailable,
            ) <==> !known),
            r matches Err(TimeError::ZoneUnavailable) || exists|zone: TimeZoneRef<'static>|
                self@.offset.answers_with(zone) && r == (match #[trigger] self@.reading_in(zone) {
                    Ok(civil) => Ok::<u8, TimeError>(civil.second),
                    Err(e) => Err(e),
                }),
    {
        match self.civil() {
            Ok(civil) => Ok(civil.second),
            Err(e) => Err(e),
        }
    }

    /// The day of the week on the wall clock of the offset, in days since
    /// Sunday, read off the zone rules at the time of the call. Fails as
    /// `year` does.
    pub fn day_of_week(&self) -> (r: Result<u8, TimeError>)
        ensures
            r matches Ok(day) ==> day <= 6,
            r matches Err(e) ==> e == TimeError::ZoneUnavailable || e == TimeError::ZoneResolution,
            self@.offset.obtainable() matches Some(known) ==> (r matches Err(
                TimeError::ZoneUnavailable,
            ) <==> !known),
            r matches Err(TimeError::ZoneUnavailable) || exists|zone: TimeZoneRef<'static>|
                self@.offset.answers_with(zone) && r == (match #[trigger] self@.reading_in(zone) {
                    Ok(civil) => Ok::<u8, TimeError>(civil.week_day),
                    Err(e) => Err(e),
                }),
    {
        match self.civil() {
            Ok(civil) => Ok(civil.week_day),
            Err(e) => Err(e),
        }
    }

    /// The day of the year on the wall clock of the offset, in days since the
    /// first of January, read off the zone rules at the time of the call.
    /// Fails as `year` does.
    pub fn day_of_year(&self) -> (r: Result<u16, TimeError>)
        ensures
            r matches Ok(day) ==> day <= 365,
            r matches Err(e) ==> e == TimeError::ZoneUnavailable || e == TimeError::ZoneResolution,
            self@.offset.obtainable() matches Some(known) ==> (r matches Err(
                TimeError::ZoneUnavailable,
            ) <==> !known),
            r matches Err(TimeError::ZoneUnavailable) || exists|zone: TimeZoneRef<'static>|
                self@.offset.answers_with(zone) && r == (match #[trigger] self@.reading_in(zone) {
                    Ok(civil) => Ok::<u16, TimeError>(civil.year_day),
                    Err(e) => Err(e),
                }),
    {
        match self.civil() {
            Ok(civil) => Ok(civil.year_day),
            Err(e) => Err(e),
        }
    }

    /// Whether daylight saving time is in force in the offset's zone at this
    /// instant, read off the zone rules at the time of the call. Fails as
    /// `year` does.
    pub fn is_dst(&self) -> (r: Result<bool, TimeError>)
        ensures
            r matches Err(e) ==> e == TimeError::ZoneUnavailable || e == TimeError::ZoneResolution,
            self@.offset.obtainable() matches Some(known) ==> (r matches Err(
                TimeError::ZoneUnavailable,
            ) <==> !known),
            r matches Err(TimeError::ZoneUnavailable) || exists|zone: TimeZoneRef<'static>|
                self@.offset.answers_with(zone) && r == (match #[trigger] self@.reading_in(zone) {
                    Ok(civil) => Ok::<bool, TimeError>(civil.is_dst),
                    Err(e) => Err(e),
                }),
    {
        match self.civil() {
            Ok(civil) => Ok(civil.is_dst),
            Err(e) => Err(e),
        }
    }

    /// Seconds that the wall clock of the offset is ahead of UTC at this
    /// instant. UTC and constant offsets answer by themselves; the others
    /// give what the reading off their zone's rules says.
    pub fn utc_offset(&self) -> (r: Result<i32, TimeError>)
        ensures
            self@.offset == Offset::Utc ==> r == Ok::<i32, TimeError>(0),
            self@.offset matches Offset::Fixed(seconds) ==> r == Ok::<i32, TimeError>(seconds),
            r matches Err(e) ==> e == TimeError::ZoneUnavailable || e == TimeError::ZoneResolution,
            self@.offset is Named || self@.offset is Local ==> (r matches Err(
                TimeError::ZoneUnavailable,
            ) || exists|zone: TimeZoneRef<'static>|
                self@.offset.answers_with(zone) && r == (match #[trigger] self@.reading_in(zone) {
                    Ok(civil) => Ok::<i32, TimeError>(civil.utc_offset),
                    Err(e) => Err(e),
                })),
    {
        match self.offset {
            Offset::Utc => Ok(0),
            Offset::Fixed(seconds) => Ok(seconds),
            _ => match self.civil() {
                Ok(civil) => Ok(civil.utc_offset),
                Err(e) => Err(e),
            },
        }
    }

    /// The name of the zone that the time is shown in: `UTC`, or else the
    /// sign, hours and minutes that its wall clock is ahead of UTC at this
    /// instant.
    pub fn time_zone(&self) -> (r: Result<String, TimeError>)
        ensures
            self@.offset == Offset::Utc ==> (r matches Ok(name) && name@ == "UTC"@),
            self@.offset matches Offset::Fixed(seconds) ==> (r matches Ok(name) && name@ == hhmm(
                seconds as int,
            )),
            r matches Err(e) ==> e == TimeError::ZoneUnavailable || e == TimeError::ZoneResolution,
            self@.offset is Named || self@.offset is Local ==> (r matches Err(
                TimeError::ZoneUnavailable,
            ) || exists|zone: TimeZoneRef<'static>|
                self@.offset.answers_with(zone) && (match #[trigger] self@.reading_in(zone) {
                    Ok(civil) => r matches Ok(name) && name@ == hhmm(civil.utc_offset as int),
                    Err(e) => r matches Err(failure) && failure == e,
                })),
    {
        match self.offset {
            Offset::Utc => Ok("UTC".to_owned()),
            _ => match self.utc_offset() {
                Ok(seconds) => Ok(render_hhmm(seconds)),
                Err(e) => Err(e),
            },
        }
    }
}

impl Hash for Time {
    /// Calls `Hash::hash` of std on the pair of seconds and nanoseconds, the
    /// pair that `order::hash_key` models: the offset is not fed to the
    /// hasher. Nothing is claimed of the hasher's state.
    #[verifier::external_body]
    fn hash<H: Hasher>(&self, state: &mut H) {
        (self.seconds, self.nanoseconds).hash(state)
    }
}

} // verus!
