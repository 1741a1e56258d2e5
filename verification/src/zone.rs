//! The time zone rules, as the `tz` and `tzdb` crates provide them.
//!
//! Nothing in this module is proved. Each function makes one call into
//! those crates and hands back plain values; its contract is taken on trust
//! from the crate's source and documentation.
//!
//! The rules of a zone that is built from a number or looked up by a name,
//! and what such rules answer, depend on what was asked alone. So each of
//! these results has a name: `fixed_rules`, `lent`, `zone_named`,
//! `readings_found` and `reading_at`. Nothing says what a name is on given
//! values; a contract that speaks of one says which question was asked.

use vstd::prelude::*;
use tz::datetime::{DateTime, FoundDateTimeKind};
use tz::error::{LocalTimeTypeError, ProjectDateTimeError, TzError};
use tz::timezone::{TimeZone, TimeZoneRef};

verus! {

/// `tz::timezone::TimeZoneRef`: a borrowed set of time zone rules. Opaque here.
#[verifier::external_type_specification]
#[verifier::external_body]
pub struct ExTimeZoneRef<'a>(TimeZoneRef<'a>);

/// `tz::timezone::TimeZone`: an owned set of time zone rules. Opaque here.
#[verifier::external_type_specification]
#[verifier::external_body]
pub struct ExTimeZone(TimeZone);

/// `tz::error::TzError`: the unified error of the `tz` crate. Opaque here.
#[verifier::external_type_specification]
#[verifier::external_body]
pub struct ExTzError(TzError);

/// `tz::error::LocalTimeTypeError`. Opaque here.
#[verifier::external_type_specification]
#[verifier::external_body]
pub struct ExLocalTimeTypeError(LocalTimeTypeError);

/// `tz::error::ProjectDateTimeError`. Opaque here.
#[verifier::external_type_specification]
#[verifier::external_body]
pub struct ExProjectDateTimeError(ProjectDateTimeError);

/// The rules that `tz::timezone::TimeZone::fixed` builds for a zone that is
/// always `seconds` ahead of UTC.
pub uninterp spec fn fixed_rules(seconds: i32) -> TimeZone;

/// What `tz::timezone::TimeZone::as_ref` hands out for owned rules: the same
/// rules, borrowed.
pub uninterp spec fn lent(rules: TimeZone) -> TimeZoneRef<'static>;

/// What `tzdb::tz_by_name` finds under `name` in the time zone database that
/// is compiled into the `tzdb` crate.
pub uninterp spec fn zone_named(name: Seq<char>) -> Option<TimeZoneRef<'static>>;

/// Whether the time zone database has an entry under `name`.
pub open spec fn zone_is_known(name: Seq<char>) -> bool {
    zone_named(name) is Some
}

/// What `tz::datetime::DateTime::find` lists for a wall-clock reading under
/// the rules of a zone, each entry kept as a `Candidate`; the empty list
/// where that call fails.
pub uninterp spec fn readings_found(
    year: i32,
    month: u8,
    day: u8,
    hour: u8,
    minute: u8,
    second: u8,
    nanoseconds: u32,
    zone: TimeZoneRef<'static>,
) -> Seq<Candidate>;

/// What `tz::datetime::DateTime::from_timespec` reads off the wall clock of a
/// zone for an instant, kept as a `Civil`; `None` where that call fails.
pub uninterp spec fn reading_at(seconds: i64, nanoseconds: u32, zone: TimeZoneRef<'static>) -> Option<
    Civil,
>;

/// One answer of the zone rules to the question which instants a wall-clock
/// reading names.
#[derive(Clone, Copy, Debug, PartialEq, Eq)]
pub enum Candidate {
    /// The reading names this instant, in seconds since the Unix epoch.
    Instant(i64),
    /// The reading was skipped by a forward transition of the clock, which
    /// took place at this instant; it names no instant.
    Skipped { transition: i64 },
}

/// An instant as a wall clock of some zone shows it.
#[derive(Clone, Copy, Debug, PartialEq, Eq)]
pub struct Civil {
    pub year: i32,
    pub month: u8,
    pub day: u8,
    pub hour: u8,
    pub minute: u8,
    pub second: u8,
    /// Days since Sunday.
    pub week_day: u8,
    /// Days since the first of January.
    pub year_day: u16,
    /// Seconds that the wall clock is ahead of UTC at that instant.
    pub utc_offset: i32,
    /// Whether daylight saving time is in force at that instant.
    pub is_dst: bool,
}

impl Civil {
    /// The ranges that the `tz` crate documents for the fields of a date time.
    pub open spec fn in_calendar_ranges(self) -> bool {
        &&& 1 <= self.month <= 12
        &&& 1 <= self.day <= 31
        &&& self.hour <= 23
        &&& self.minute <= 59
        &&& self.second <= 60
        &&& self.week_day <= 6
        &&& self.year_day <= 365
    }
}

/// Calls `tz::timezone::TimeZone::fixed`, which builds the rules of a zone
/// that is always `seconds` ahead of UTC. Claimed: it fails for the least
/// `i32` and for no other offset, as the test in
/// `LocalTimeType::with_ut_offset` shows; and the rules depend on the
/// seconds alone, so they are the ones that `fixed_rules` names.
#[verifier::external_body]
pub(crate) fn fixed_zone(seconds: i32) -> (r: Result<TimeZone, LocalTimeTypeError>)
    ensures
        r is Ok <==> seconds != i32::MIN,
        r matches Ok(rules) ==> rules == fixed_rules(seconds),
{
    TimeZone::fixed(seconds)
}

/// Calls `tz::timezone::TimeZone::as_ref`, which lends the rules out.
/// Claimed: what is lent depends on the rules alone, so it is what `lent`
/// names.
#[verifier::external_body]
pub(crate) fn zone_ref<'a>(zone: &'a TimeZone) -> (r: TimeZoneRef<'a>)
    ensures
        r == lent(*zone),
{
    zone.as_ref()
}

/// Calls `tzdb::tz_by_name`, a lookup in a table that is compiled into that
/// crate. Claimed: what is found depends on the name alone, so it is what
/// `zone_named` names.
#[verifier::external_body]
pub(crate) fn named_zone(name: &str) -> (r: Option<TimeZoneRef<'static>>)
    ensures
        r == zone_named(name@),
{
    tzdb::tz_by_name(name)
}

/// Calls `tzdb::local_tz`, which asks the operating system for the name of
/// the machine's zone and looks it up. The answer depends on the machine:
/// nothing is claimed of it.
#[verifier::external_body]
pub(crate) fn local_zone() -> Option<TimeZoneRef<'static>> {
    tzdb::local_tz()
}

/// Calls `tz::datetime::DateTime::find`, which lists what a wall-clock
/// reading names under the rules of a zone, and keeps of each entry the
/// instant in seconds since the Unix epoch. Claimed: the list depends on the
/// reading and the zone alone, so it is the one that `readings_found` names.
#[verifier::external_body]
pub(crate) fn find_candidates(
    year: i32,
    month: u8,
    day: u8,
    hour: u8,
    minute: u8,
    second: u8,
    nanoseconds: u32,
    zone: TimeZoneRef<'_>,
) -> (r: Result<Vec<Candidate>, TzError>)
    ensures
        r matches Ok(list) ==> list@ == readings_found(
            year,
            month,
            day,
            hour,
            minute,
            second,
            nanoseconds,
            zone,
        ),
        r is Err ==> readings_found(year, month, day, hour, minute, second, nanoseconds, zone)
            == Seq::<Candidate>::empty(),
{
    let found = DateTime::find(year, month, day, hour, minute, second, nanoseconds, zone)?;
    Ok(found.into_inner().into_iter().map(|kind| match kind {
        FoundDateTimeKind::Normal(at) => Candidate::Instant(at.unix_time()),
        FoundDateTimeKind::Skipped { before_transition, .. } => Candidate::Skipped {
            transition: before_transition.unix_time(),
        },
    }).collect())
}

/// Calls `tz::datetime::DateTime::from_timespec`, which reads an instant off
/// the wall clock of a zone, and copies the fields out. Claimed: the reading
/// depends on the instant and the zone alone, so it is the one that
/// `reading_at` names; and the ranges that the crate documents for the
/// fields of a date time.
#[verifier::external_body]
pub(crate) fn civil_at(seconds: i64, nanoseconds: u32, zone: TimeZoneRef<'_>) -> (r: Result<
    Civil,
    ProjectDateTimeError,
>)
    ensures
        r matches Ok(civil) ==> reading_at(seconds, nanoseconds, zone) == Some(civil)
            && civil.in_calendar_ranges(),
        r is Err ==> reading_at(seconds, nanoseconds, zone) is None,
{
    let at = DateTime::from_timespec(seconds, nanoseconds, zone)?;
    Ok(Civil {
        year: at.year(),
        month: at.month(),
        day: at.month_day(),
        hour: at.hour(),
        minute: at.minute(),
        second: at.second(),
        week_day: at.week_day(),
        year_day: at.year_day(),
        utc_offset: at.local_time_type().ut_offset(),
        is_dst: at.local_time_type().is_dst(),
    })
}

/// Calls `tz::datetime::DateTime::now`, which reads the system clock, and
/// keeps the seconds since the Unix epoch and the nanoseconds. Claimed: the
/// nanoseconds are below one second, as the crate documents for a date time.
#[verifier::external_body]
pub(crate) fn clock_reading(zone: TimeZoneRef<'_>) -> (r: Result<(i64, u32), TzError>)
    ensures
        r matches Ok(reading) ==> reading.1 <= 999_999_999,
{
    let now = DateTime::now(zone)?;
    Ok((now.unix_time(), now.nanoseconds()))
}

} // verus!
