//! The canonical instant: a date and time of day in UTC, to the
//! millisecond.

use vstd::prelude::*;
use crate::calendar::{check_date, date_exists};

verus! {

/// A date and time of day in UTC, field by field.
pub struct Civil {
    pub year: int,
    pub month: int,
    pub day: int,
    pub hour: int,
    pub minute: int,
    pub second: int,
    pub millisecond: int,
}

impl Civil {
    /// The fields name a moment that the codecs can write: a day that the
    /// calendar has in a year of four digits, and a time of day.
    pub open spec fn is_valid(self) -> bool {
        &&& 0 <= self.year <= 9999
        &&& date_exists(self.year, self.month, self.day)
        &&& 0 <= self.hour < 24
        &&& 0 <= self.minute < 60
        &&& 0 <= self.second < 60
        &&& 0 <= self.millisecond < 1000
    }

    /// The same day at midnight.
    pub open spec fn date_only(self) -> Civil {
        Civil { hour: 0, minute: 0, second: 0, millisecond: 0, ..self }
    }

    /// The same second, without its milliseconds.
    pub open spec fn whole_second(self) -> Civil {
        Civil { millisecond: 0, ..self }
    }
}

/// A timestamp in UTC with millisecond precision. Every value is a valid
/// moment: see `Civil::is_valid`.
#[derive(Clone, Copy, Debug, PartialEq, Eq)]
pub struct Instant {
    year: u32,
    month: u32,
    day: u32,
    hour: u32,
    minute: u32,
    second: u32,
    millisecond: u32,
}

impl View for Instant {
    type V = Civil;

    closed spec fn view(&self) -> Civil {
        Civil {
            year: self.year as int,
            month: self.month as int,
            day: self.day as int,
            hour: self.hour as int,
            minute: self.minute as int,
            second: self.second as int,
            millisecond: self.millisecond as int,
        }
    }
}

impl Instant {
    /// Every instant is a valid moment.
    #[verifier::type_invariant]
    pub open spec fn wf(&self) -> bool {
        self@.is_valid()
    }

    /// The instant with the given fields, where they name a valid moment.
    pub fn new(
        year: u32,
        month: u32,
        day: u32,
        hour: u32,
        minute: u32,
        second: u32,
        millisecond: u32,
    ) -> (r: Option<Instant>)
        ensures
            r.is_some() == (Civil {
                year: year as int,
                month: month as int,
                day: day as int,
                hour: hour as int,
                minute: minute as int,
                second: second as int,
                millisecond: millisecond as int,
            }).is_valid(),
            r matches Some(instant) ==> instant@ == (Civil {
                year: year as int,
                month: month as int,
                day: day as int,
                hour: hour as int,
                minute: minute as int,
                second: second as int,
                millisecond: millisecond as int,
            }),
    {
        if year <= 9999 && check_date(year, month, day) && hour < 24 && minute < 60 && second < 60
            && millisecond < 1000 {
            Some(Instant { year, month, day, hour, minute, second, millisecond })
        } else {
            None
        }
    }

    /// The year, from 0 to 9999.
    pub fn year(&self) -> (r: u32)
        ensures
            r == self@.year,
            self@.is_valid(),
    {
        proof {
            use_type_invariant(self);
        }
        self.year
    }

    /// The month, from 1 to 12.
    pub fn month(&self) -> (r: u32)
        ensures
            r == self@.month,
            self@.is_valid(),
    {
        proof {
            use_type_invariant(self);
        }
        self.month
    }

    /// The day of the month, from 1.
    pub fn day(&self) -> (r: u32)
        ensures
            r == self@.day,
            self@.is_valid(),
    {
        proof {
            use_type_invariant(self);
        }
        self.day
    }

    /// The hour, from 0 to 23.
    pub fn hour(&self) -> (r: u32)
        ensures
            r == self@.hour,
            self@.is_valid(),
    {
        proof {
            use_type_invariant(self);
        }
        self.hour
    }

    /// The minute, from 0 to 59.
    pub fn minute(&self) -> (r: u32)
        ensures
            r == self@.minute,
            self@.is_valid(),
    {
        proof {
            use_type_invariant(self);
        }
        self.minute
    }

    /// The second, from 0 to 59.
    pub fn second(&self) -> (r: u32)
        ensures
            r == self@.second,
            self@.is_valid(),
    {
        proof {
            use_type_invariant(self);
        }
        self.second
    }

    /// The millisecond, from 0 to 999.
    pub fn millisecond(&self) -> (r: u32)
        ensures
            r == self@.millisecond,
            self@.is_valid(),
    {
        proof {
            use_type_invariant(self);
        }
        self.millisecond
    }
}

} // verus!
