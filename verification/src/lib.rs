//! Core of a GPS status tracker: a fix snapshot value object, a latest-wins
//! hand-off channel between the acquisition task and the render task, a
//! resolver that projects the fix time into a display timezone, and a pure
//! layout engine that turns a snapshot into draw operations for a 128x32
//! monochrome surface.
//!
//! Coordinates are carried as signed microdegrees (degrees times 100000,
//! matching the five fractional digits that the display shows) and the
//! horizontal dilution of precision as hundredths, so that every field of a
//! snapshot is a plain integer.
use vstd::prelude::*;

pub mod acquire;
pub mod channel;
pub mod display;
pub mod simulator;
pub mod time;

use crate::time::{Date, TimeOfDay};

verus! {

/// Seconds in a day; the modulus for timezone projection.
pub const SECONDS_PER_DAY: i64 = 86400;

/// The display timezone: either UTC or a fixed offset from it, given in
/// seconds east of UTC (no daylight-saving adjustment).
#[derive(Clone, Copy, Debug, PartialEq, Eq, Structural)]
pub enum DisplayTZ {
    Local { fixed_offset: i32 },
    Utc,
}

impl DisplayTZ {
    /// A fixed offset is meaningful only strictly within one day of UTC.
    pub open spec fn wf(self) -> bool {
        match self {
            DisplayTZ::Local { fixed_offset } => -86400 < fixed_offset < 86400,
            DisplayTZ::Utc => true,
        }
    }

    /// Seconds east of UTC that the projection adds.
    pub open spec fn spec_offset_seconds(self) -> int {
        match self {
            DisplayTZ::Local { fixed_offset } => fixed_offset as int,
            DisplayTZ::Utc => 0,
        }
    }
}

impl Default for DisplayTZ {
    fn default() -> (r: Self)
        ensures
            r == DisplayTZ::Utc,
    {
        DisplayTZ::Utc
    }
}

/// The latest known position, time and quality data. Constructed fresh from
/// defaults on every successful sentence decode; all numeric fields default
/// to a value that means "unknown".
#[derive(Clone, Copy, Debug, PartialEq, Eq, Structural)]
pub struct DisplayState {
    /// Calendar date of the most recent fix that carried one.
    pub date: Date,
    /// Time of day in UTC of the most recent fix that carried one,
    /// updated independently of `date`.
    pub time: TimeOfDay,
    /// Timezone the clock line is projected into (a configuration constant).
    pub display_tz: DisplayTZ,
    /// Latitude in microdegrees (degrees times 100000), signed; 0 until set.
    pub lat: i32,
    /// Longitude in microdegrees (degrees times 100000), signed; 0 until set.
    pub lon: i32,
    /// Number of satellites in view; 0 when unknown.
    pub sats: u8,
    /// Horizontal dilution of precision in hundredths; 0 is the
    /// "no data" sentinel, larger is worse.
    pub hdop: u32,
}

impl DisplayState {
    pub open spec fn wf(self) -> bool {
        &&& self.date.wf()
        &&& self.time.wf()
        &&& self.display_tz.wf()
    }

    /// Runtime check of well-formedness, for callers outside verified
    /// code that must establish it before rendering.
    pub fn is_wf(&self) -> (r: bool)
        ensures
            r == self.wf(),
    {
        let date_ok = 1 <= self.date.month && self.date.month <= 12 && 1 <= self.date.day
            && self.date.day <= 31;
        let time_ok = self.time.hour < 24 && self.time.minute < 60 && self.time.second < 60;
        let tz_ok = match self.display_tz {
            DisplayTZ::Local { fixed_offset } => -86400 < fixed_offset && fixed_offset < 86400,
            DisplayTZ::Utc => true,
        };
        date_ok && time_ok && tz_ok
    }

    /// The all-defaults snapshot: epoch date, midnight, UTC display,
    /// zeroed coordinates and quality fields.
    pub open spec fn spec_default() -> DisplayState {
        DisplayState {
            date: Date { year: 1970, month: 1, day: 1 },
            time: TimeOfDay { hour: 0, minute: 0, second: 0 },
            display_tz: DisplayTZ::Utc,
            lat: 0,
            lon: 0,
            sats: 0,
            hdop: 0,
        }
    }
}

impl Default for DisplayState {
    fn default() -> (r: Self)
        ensures
            r == DisplayState::spec_default(),
            r.wf(),
    {
        DisplayState {
            date: Date { year: 1970, month: 1, day: 1 },
            time: TimeOfDay { hour: 0, minute: 0, second: 0 },
            display_tz: DisplayTZ::Utc,
            lat: 0,
            lon: 0,
            sats: 0,
            hdop: 0,
        }
    }
}

} // verus!
