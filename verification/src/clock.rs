//! Time of day, as the creation stamp of an entity carries it.
//!
//! A time of day is modelled as its number of whole seconds after midnight.

use chrono::NaiveTime;
use chrono::Timelike;
use vstd::prelude::*;

verus! {

/// Seconds in a day.
pub const SECONDS_PER_DAY: u32 = 86_400;

/// The seconds after midnight at `hour:min:sec`, where that names a time of day.
pub open spec fn seconds_of(hour: u32, min: u32, sec: u32) -> Option<u32> {
    if hour < 24 && min < 60 && sec < 60 {
        Some((hour * 3600 + min * 60 + sec) as u32)
    } else {
        None
    }
}

/// Asks `chrono::NaiveTime::from_hms_opt` for the time `hour:min:sec` and
/// reads the answer back with `Timelike::num_seconds_from_midnight`.
///
/// Trusted, not proved: chrono refuses an hour of 24 or more and a minute or
/// second of 60 or more, and otherwise stores `hour * 3600 + min * 60 + sec`,
/// which is the number it hands back.
#[verifier::external_body]
fn chrono_seconds_from_hms(hour: u32, min: u32, sec: u32) -> (r: Option<u32>)
    ensures
        r == seconds_of(hour, min, sec),
{
    match NaiveTime::from_hms_opt(hour, min, sec) {
        Some(t) => Some(t.num_seconds_from_midnight()),
        None => None,
    }
}

/// A time of day with a resolution of one second.
#[derive(Clone, Copy, Debug, PartialEq, Eq)]
pub struct TimeOfDay {
    secs: u32,
}

impl View for TimeOfDay {
    type V = nat;

    /// Whole seconds after midnight.
    closed spec fn view(&self) -> nat {
        self.secs as nat
    }
}

impl TimeOfDay {
    #[verifier::type_invariant]
    spec fn in_day(self) -> bool {
        self.secs < SECONDS_PER_DAY
    }

    /// The time `hour:min:sec`, or `None` where no such time of day exists.
    pub fn from_hms(hour: u32, min: u32, sec: u32) -> (r: Option<TimeOfDay>)
        ensures
            r is Some <==> hour < 24 && min < 60 && sec < 60,
            r matches Some(t) ==> t@ == hour * 3600 + min * 60 + sec,
    {
        match chrono_seconds_from_hms(hour, min, sec) {
            Some(secs) => Some(TimeOfDay { secs }),
            None => None,
        }
    }

    /// The start of the day, 00:00:00.
    pub fn midnight() -> (r: TimeOfDay)
        ensures
            r@ == 0,
    {
        TimeOfDay::from_hms(0, 0, 0).unwrap()
    }

    /// Whole seconds after midnight.
    pub fn seconds_from_midnight(&self) -> (r: u32)
        ensures
            r == self@,
            r < SECONDS_PER_DAY,
    {
        proof {
            use_type_invariant(self);
        }
        self.secs
    }

    /// The hour, from 0 to 23.
    pub fn hour(&self) -> (r: u32)
        ensures
            r == self@ / 3600,
            r < 24,
    {
        proof {
            use_type_invariant(self);
        }
        self.secs / 3600
    }

    /// The minute of the hour, from 0 to 59.
    pub fn minute(&self) -> (r: u32)
        ensures
            r == (self@ / 60) % 60,
            r < 60,
    {
        (self.secs / 60) % 60
    }

    /// The second of the minute, from 0 to 59.
    pub fn second(&self) -> (r: u32)
        ensures
            r == self@ % 60,
            r < 60,
    {
        self.secs % 60
    }
}

} // verus!
