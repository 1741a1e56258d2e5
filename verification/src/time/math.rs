//! Moving a time by whole seconds with `+` and `-`.
//!
//! Both operators ask that the seconds since the epoch stay within 64 bits;
//! `checked_add` and `checked_sub` are there for a caller who cannot know.

use vstd::prelude::*;
use vstd::std_specs::ops::{AddSpecImpl, SubSpecImpl};
use core::ops::{Add, Sub};
use crate::time::Time;

verus! {

impl Add<i64> for Time {
    type Output = Time;

    /// The time `seconds` later: the same nanoseconds and offset, the
    /// instant moved.
    fn add(self, seconds: i64) -> (r: Time) {
        let sum: i64 = self.to_int() + seconds;
        self.at_seconds(sum)
    }
}

impl AddSpecImpl<i64> for Time {
    open spec fn obeys_add_spec() -> bool {
        true
    }

    open spec fn add_req(self, seconds: i64) -> bool {
        i64::MIN <= self@.seconds + seconds <= i64::MAX
    }

    open spec fn add_spec(self, seconds: i64) -> Time {
        self.shifted(seconds as int)
    }
}

impl Sub<i64> for Time {
    type Output = Time;

    /// The time `seconds` earlier: the same nanoseconds and offset, the
    /// instant moved.
    fn sub(self, seconds: i64) -> (r: Time) {
        let difference: i64 = self.to_int() - seconds;
        self.at_seconds(difference)
    }
}

impl SubSpecImpl<i64> for Time {
    open spec fn obeys_sub_spec() -> bool {
        true
    }

    open spec fn sub_req(self, seconds: i64) -> bool {
        i64::MIN <= self@.seconds - seconds <= i64::MAX
    }

    open spec fn sub_spec(self, seconds: i64) -> Time {
        self.shifted(-seconds)
    }
}

} // verus!
