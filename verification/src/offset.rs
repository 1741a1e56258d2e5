//! How an instant is mapped to a wall clock.

use vstd::prelude::*;
use vstd::string::*;
use crate::text::{push_two_digits, two_digits};
use tz::timezone::TimeZoneRef;
use crate::zone::{fixed_rules, fixed_zone, lent, local_zone, named_zone, zone_is_known, zone_named};

verus! {

/// The zone that a time is shown in. It takes no part in what instant the
/// time is: two offsets may stand for the same zone.
#[derive(Clone, Copy, Debug, PartialEq, Eq)]
pub enum Offset {
    /// A constant number of seconds ahead of UTC, without daylight saving.
    Fixed(i32),
    /// Coordinated Universal Time.
    Utc,
    /// The zone of the machine, looked up each time it is used.
    Local,
    /// An entry of the time zone database with its whole history of
    /// transitions, under its identifier, such as `Europe/Berlin`.
    Named(&'static str),
}

pub const SECONDS_IN_MINUTE: i64 = 60;

pub const SECONDS_IN_HOUR: i64 = 3600;

/// The name of a constant offset: a sign, the whole hours in two digits or
/// more, and the whole minutes left over in two digits. Seconds beyond the
/// last whole minute are dropped.
pub open spec fn hhmm(seconds: int) -> Seq<char> {
    let magnitude = if seconds < 0 {
        -seconds
    } else {
        seconds
    };
    seq![if seconds < 0 {
        '-'
    } else {
        '+'
    }] + two_digits((magnitude / 3600) as nat) + two_digits(((magnitude / 60) % 60) as nat)
}

/// Renders a constant offset as a sign, hours and minutes.
pub fn render_hhmm(seconds: i32) -> (r: String)
    ensures
        r@ == hhmm(seconds as int),
{
    let mut out = String::new();
    let magnitude: i64 = if seconds < 0 {
        proof {
            reveal_strlit("-");
        }
        out.append("-");
        assert(out@ =~= seq!['-']);
        -(seconds as i64)
    } else {
        proof {
            reveal_strlit("+");
        }
        out.append("+");
        assert(out@ =~= seq!['+']);
        seconds as i64
    };
    let hours: i64 = magnitude / SECONDS_IN_HOUR;
    let minutes: i64 = (magnitude / SECONDS_IN_MINUTE) % 60;
    push_two_digits(&mut out, hours as u64);
    push_two_digits(&mut out, minutes as u64);
    assert(out@ =~= hhmm(seconds as int));
    out
}

impl Offset {
    /// Whether the zone's rules can be had: `Some` where that is settled by
    /// the offset itself, `None` where the machine decides.
    ///
    /// UTC always can. A constant offset can unless it is the least `i32`. A
    /// named zone can if the database has an entry under the name.
    pub open spec fn obtainable(self) -> Option<bool> {
        match self {
            Offset::Utc => Some(true),
            Offset::Fixed(seconds) => Some(seconds != i32::MIN),
            Offset::Named(name) => Some(zone_is_known(name@)),
            Offset::Local => None,
        }
    }

    /// The rules of the zone that the offset stands for, where the offset
    /// settles them: those of a zone that is a constant number of seconds
    /// ahead of UTC, zero seconds for UTC itself, or those that the database
    /// holds under the name. `None` where there are none to be had, and for
    /// `Local`, whose rules the machine decides.
    pub open spec fn rules(self) -> Option<TimeZoneRef<'static>> {
        match self {
            Offset::Utc => Some(lent(fixed_rules(0))),
            Offset::Fixed(seconds) => if seconds != i32::MIN {
                Some(lent(fixed_rules(seconds)))
            } else {
                None
            },
            Offset::Named(name) => zone_named(name@),
            Offset::Local => None,
        }
    }

    /// Whether `zone` can be what the offset is answered with: for `Local`
    /// any zone, for every other offset its own rules and no others.
    pub open spec fn answers_with(self, zone: TimeZoneRef<'static>) -> bool {
        self == Offset::Local || self.rules() == Some(zone)
    }

    /// The offset of Coordinated Universal Time.
    pub fn utc() -> (r: Offset)
        ensures
            r == Offset::Utc,
    {
        Offset::Utc
    }

    /// The offset of the machine's own zone.
    pub fn local() -> (r: Offset)
        ensures
            r == Offset::Local,
    {
        Offset::Local
    }

    /// A constant offset of `seconds` ahead of UTC.
    pub fn fixed(seconds: i32) -> (r: Offset)
        ensures
            r == Offset::Fixed(seconds),
    {
        Offset::Fixed(seconds)
    }

    /// The offset of the database entry `name`.
    pub fn tz(name: &'static str) -> (r: Offset)
        ensures
            r == Offset::Named(name),
    {
        Offset::Named(name)
    }

    /// Whether this is the UTC offset itself.
    pub fn is_utc(&self) -> (r: bool)
        ensures
            r == (*self == Offset::Utc),
    {
        match self {
            Offset::Utc => true,
            _ => false,
        }
    }

    /// Tries to obtain the zone's rules and says whether that went well.
    pub fn is_obtainable(&self) -> (r: bool)
        ensures
            self.obtainable() matches Some(known) ==> r == known,
    {
        match self {
            Offset::Utc => true,
            Offset::Fixed(seconds) => fixed_zone(*seconds).is_ok(),
            Offset::Named(name) => named_zone(name).is_some(),
            Offset::Local => local_zone().is_some(),
        }
    }
}

} // verus!
