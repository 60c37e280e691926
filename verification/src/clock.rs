//! The time of day at which a listing was observed.

use vstd::prelude::*;
use crate::digits::padded;

verus! {

/// A time of day, to the second.
#[derive(Clone, Copy, Debug)]
pub struct TimeOfDay {
    hour: u32,
    minute: u32,
    second: u32,
}

/// Whether three numbers name a time of day.
pub open spec fn is_time_of_day(hour: u32, minute: u32, second: u32) -> bool {
    hour < 24 && minute < 60 && second < 60
}

/// Hour and minute as a clock shows them: two digits each, a colon between.
pub open spec fn clock_text(hour: u32, minute: u32) -> Seq<char> {
    padded(hour as nat, 2) + seq![':'] + padded(minute as nat, 2)
}

/// `chrono::NaiveTime::from_hms_opt` followed by `format("%H:%M")`: for a
/// valid time of day, the hour and the minute with two digits each.
#[verifier::external_body]
fn format_hour_minute(hour: u32, minute: u32, second: u32) -> (text: String)
    requires
        is_time_of_day(hour, minute, second),
    ensures
        text@ == clock_text(hour, minute),
{
    match chrono::NaiveTime::from_hms_opt(hour, minute, second) {
        Some(time) => time.format("%H:%M").to_string(),
        None => String::new(),
    }
}

impl TimeOfDay {
    #[verifier::type_invariant]
    spec fn in_range(self) -> bool {
        is_time_of_day(self.hour, self.minute, self.second)
    }

    /// The hour, from 0 to 23.
    pub closed spec fn hour(self) -> u32 {
        self.hour
    }

    /// The minute, from 0 to 59.
    pub closed spec fn minute(self) -> u32 {
        self.minute
    }

    /// The second, from 0 to 59.
    pub closed spec fn second(self) -> u32 {
        self.second
    }

    /// The time of day with the given hour, minute and second, if there is
    /// one.
    pub fn new(hour: u32, minute: u32, second: u32) -> (time: Option<TimeOfDay>)
        ensures
            time is Some <==> is_time_of_day(hour, minute, second),
            time matches Some(t) ==> t.hour() == hour && t.minute() == minute && t.second()
                == second,
    {
        if hour < 24 && minute < 60 && second < 60 {
            Some(TimeOfDay { hour, minute, second })
        } else {
            None
        }
    }

    /// Midnight.
    pub fn midnight() -> (time: TimeOfDay)
        ensures
            time.hour() == 0,
            time.minute() == 0,
            time.second() == 0,
    {
        TimeOfDay { hour: 0, minute: 0, second: 0 }
    }

    /// The hour, from 0 to 23.
    pub fn get_hour(&self) -> (hour: u32)
        ensures
            hour == self.hour(),
            hour < 24,
    {
        proof {
            use_type_invariant(self);
        }
        self.hour
    }

    /// The minute, from 0 to 59.
    pub fn get_minute(&self) -> (minute: u32)
        ensures
            minute == self.minute(),
            minute < 60,
    {
        proof {
            use_type_invariant(self);
        }
        self.minute
    }

    /// The second, from 0 to 59.
    pub fn get_second(&self) -> (second: u32)
        ensures
            second == self.second(),
            second < 60,
    {
        proof {
            use_type_invariant(self);
        }
        self.second
    }

    /// The time as a table shows it, such as `09:05`.
    pub fn label(&self) -> (text: String)
        ensures
            text@ == clock_text(self.hour(), self.minute()),
    {
        proof {
            use_type_invariant(self);
        }
        format_hour_minute(self.hour, self.minute, self.second)
    }
}

} // verus!
