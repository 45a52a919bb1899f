//! Date and time-of-day values carried in a fix snapshot, the combination of
//! the two into a UTC instant, and the projection of that instant into the
//! display timezone, including rollover across midnight.
use vstd::prelude::*;

use crate::{DisplayState, DisplayTZ, SECONDS_PER_DAY};

verus! {

/// A calendar date as plain fields. The default is the epoch date, which
/// also serves as the "no date seen yet" sentinel.
#[derive(Clone, Copy, Debug, PartialEq, Eq, Structural)]
pub struct Date {
    pub year: i32,
    pub month: u8,
    pub day: u8,
}

impl Date {
    pub open spec fn wf(self) -> bool {
        &&& 1 <= self.month <= 12
        &&& 1 <= self.day <= 31
    }
}

impl Default for Date {
    fn default() -> (r: Self)
        ensures
            r == (Date { year: 1970, month: 1, day: 1 }),
            r.wf(),
    {
        Date { year: 1970, month: 1, day: 1 }
    }
}

/// A time of day as plain fields, in UTC when stored in a snapshot.
#[derive(Clone, Copy, Debug, PartialEq, Eq, Structural)]
pub struct TimeOfDay {
    pub hour: u8,
    pub minute: u8,
    pub second: u8,
}

impl TimeOfDay {
    pub open spec fn wf(self) -> bool {
        &&& self.hour < 24
        &&& self.minute < 60
        &&& self.second < 60
    }

    /// Seconds since midnight.
    pub open spec fn spec_second_of_day(self) -> int {
        self.hour * 3600 + self.minute * 60 + self.second
    }
}

impl Default for TimeOfDay {
    fn default() -> (r: Self)
        ensures
            r == (TimeOfDay { hour: 0, minute: 0, second: 0 }),
            r.wf(),
    {
        TimeOfDay { hour: 0, minute: 0, second: 0 }
    }
}

/// An absolute UTC instant: a date paired with a time of day.
#[derive(Clone, Copy, Debug, PartialEq, Eq, Structural)]
pub struct UtcInstant {
    pub date: Date,
    pub time: TimeOfDay,
}

/// The instant a snapshot stands for: its date and time combined as given,
/// with no check that the two came from the same sentence.
pub open spec fn spec_combine(d: Date, t: TimeOfDay) -> UtcInstant {
    UtcInstant { date: d, time: t }
}

/// A snapshot with its date replaced and everything else kept.
pub open spec fn spec_with_date(s: DisplayState, d: Date) -> DisplayState {
    DisplayState { date: d, ..s }
}

/// A snapshot with its time of day replaced and everything else kept.
pub open spec fn spec_with_time(s: DisplayState, t: TimeOfDay) -> DisplayState {
    DisplayState { time: t, ..s }
}

/// Seconds since midnight of the displayed wall clock: the snapshot's UTC
/// time of day shifted by the display timezone's offset, wrapped into one
/// day. The modulus is Euclidean, so a shift across midnight in either
/// direction lands back inside the day.
pub open spec fn spec_resolved_second_of_day(s: DisplayState) -> int {
    (s.time.spec_second_of_day() + s.display_tz.spec_offset_seconds()) % (
    SECONDS_PER_DAY as int)
}

/// The displayed wall clock, as hour, minute and second of
/// `spec_resolved_second_of_day`.
pub open spec fn spec_resolved_time(s: DisplayState) -> TimeOfDay {
    let sod = spec_resolved_second_of_day(s);
    TimeOfDay {
        hour: (sod / 3600) as u8,
        minute: ((sod / 60) % 60) as u8,
        second: (sod % 60) as u8,
    }
}

impl DisplayState {
    /// Record the calendar date of the latest fix; every other field is
    /// left as it was.
    pub fn update_date(&mut self, d: Date)
        ensures
            *final(self) == spec_with_date(*old(self), d),
    {
        self.date = d;
    }

    /// Record the UTC time of day of the latest fix; every other field is
    /// left as it was. The value must be GPS UTC time, not local time.
    pub fn update_utc_time(&mut self, t: TimeOfDay)
        ensures
            *final(self) == spec_with_time(*old(self), t),
    {
        self.time = t;
    }

    /// The UTC instant this snapshot stands for: latest date and latest
    /// time combined, regardless of which of the two changed last.
    pub fn now(&self) -> (r: UtcInstant)
        ensures
            r == spec_combine(self.date, self.time),
    {
        UtcInstant { date: self.date, time: self.time }
    }

    /// Project the snapshot's instant into the display timezone and return
    /// the wall clock to show. Rolls over across midnight: the result is
    /// always a valid time of day.
    pub fn resolve(&self) -> (r: TimeOfDay)
        requires
            self.time.wf(),
            self.display_tz.wf(),
        ensures
            r == spec_resolved_time(*self),
            r.wf(),
            r.spec_second_of_day() == spec_resolved_second_of_day(*self),
    {
        let tod: i64 = (self.time.hour as i64) * 3600 + (self.time.minute as i64) * 60
            + (self.time.second as i64);
        let off: i64 = match self.display_tz {
            DisplayTZ::Local { fixed_offset } => fixed_offset as i64,
            DisplayTZ::Utc => 0,
        };
        // tod + off can be negative; one extra day keeps the dividend
        // positive without changing the residue.
        let shifted: i64 = tod + off + SECONDS_PER_DAY;
        let sod: i64 = shifted % SECONDS_PER_DAY;
        proof {
            vstd::arithmetic::div_mod::lemma_mod_add_multiples_vanish(
                tod + off,
                SECONDS_PER_DAY as int,
            );
            vstd::arithmetic::div_mod::lemma_mod_bound(
                shifted as int,
                SECONDS_PER_DAY as int,
            );
        }
        let r = TimeOfDay {
            hour: (sod / 3600) as u8,
            minute: ((sod / 60) % 60) as u8,
            second: (sod % 60) as u8,
        };
        proof {
            lemma_second_of_day_decomposition(sod as int);
        }
        r
    }
}

/// Splitting a second-of-day into hour, minute and second and re-combining
/// them gives the original value back, and each part is in range.
proof fn lemma_second_of_day_decomposition(sod: int)
    requires
        0 <= sod < 86400,
    ensures
        (sod / 3600) * 3600 + ((sod / 60) % 60) * 60 + sod % 60 == sod,
        0 <= sod / 3600 < 24,
        0 <= (sod / 60) % 60 < 60,
        0 <= sod % 60 < 60,
{
    vstd::arithmetic::div_mod::lemma_fundamental_div_mod(sod, 60);
    vstd::arithmetic::div_mod::lemma_fundamental_div_mod(sod / 60, 60);
    vstd::arithmetic::div_mod::lemma_mod_bound(sod, 60);
    vstd::arithmetic::div_mod::lemma_mod_bound(sod / 60, 60);
    assert(sod / 3600 == (sod / 60) / 60) by {
        vstd::arithmetic::div_mod::lemma_div_denominator(sod, 60, 60);
    }
}

/// The resolved instant depends only on the latest date and the latest
/// time, not on the order in which the two were recorded: updating the
/// date and then the time gives the same combined instant as updating the
/// time and then the date.
pub proof fn lemma_time_combination_independence(
    s: DisplayState,
    d: Date,
    t: TimeOfDay,
)
    ensures
        ({
            let after = spec_with_time(spec_with_date(s, d), t);
            spec_combine(after.date, after.time) == spec_combine(d, t)
        }),
        ({
            let after = spec_with_date(spec_with_time(s, t), d);
            spec_combine(after.date, after.time) == spec_combine(d, t)
        }),
{
}

} // verus!
