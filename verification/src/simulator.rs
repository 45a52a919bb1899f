//! A source of plausible snapshots for driving the display without a GPS
//! receiver: each call stamps the current UTC wall-clock onto randomly
//! drawn coordinates and quality values. The randomness and the clock come
//! from outside; everything proved here holds for every outcome of both.
use vstd::prelude::*;

use chrono::{Datelike, Timelike};

use crate::time::{Date, TimeOfDay};
use crate::{DisplayState, DisplayTZ};

verus! {

#[verifier::external_type_specification]
#[verifier::external_body]
pub struct ExRng(fastrand::Rng);

/// Relies on `fastrand::Rng::new`: a fresh generator seeded from the
/// thread-local one. Nothing is promised of it.
#[verifier::external_body]
fn rng_new() -> fastrand::Rng {
    fastrand::Rng::new()
}

/// Relies on `fastrand::Rng::u8` over a half-open range starting at zero:
/// the result lies below the bound. The bound being positive keeps the
/// range non-empty, which is the one case where the call would panic.
#[verifier::external_body]
fn rng_u8_below(rng: &mut fastrand::Rng, bound: u8) -> (r: u8)
    requires
        bound > 0,
    ensures
        r < bound,
{
    rng.u8(0..bound)
}

/// Relies on `fastrand::Rng::u32` over a half-open range starting at zero:
/// the result lies below the bound. The bound being positive keeps the
/// range non-empty, which is the one case where the call would panic.
#[verifier::external_body]
fn rng_u32_below(rng: &mut fastrand::Rng, bound: u32) -> (r: u32)
    requires
        bound > 0,
    ensures
        r < bound,
{
    rng.u32(0..bound)
}

/// Relies on `chrono::Utc::now` and the calendar and clock accessors of
/// the result: the current UTC date and time of day, each field within
/// its documented range (month one to twelve, day one to thirty-one, hour
/// below twenty-four, minute and second below sixty).
#[verifier::external_body]
fn clock_now_utc() -> (r: (Date, TimeOfDay))
    ensures
        r.0.wf(),
        r.1.wf(),
{
    let now = chrono::Utc::now();
    let date = Date { year: now.year(), month: now.month() as u8, day: now.day() as u8 };
    let time = TimeOfDay {
        hour: now.hour() as u8,
        minute: now.minute() as u8,
        second: now.second() as u8,
    };
    (date, time)
}

/// Draws random fix snapshots stamped with the real current time.
pub struct StateSimulator {
    rng: fastrand::Rng,
}

impl StateSimulator {
    /// A simulator with a freshly seeded generator.
    pub fn new() -> StateSimulator {
        StateSimulator { rng: rng_new() }
    }

    /// The next simulated snapshot: the current UTC date and time, UTC
    /// display, coordinates below sixty degrees in microdegrees, a
    /// satellite count below ninety-nine, and a dilution of precision
    /// below twenty in hundredths. Well-formed for every outcome of the
    /// generator and the clock.
    pub fn gen_next(&mut self) -> (s: DisplayState)
        ensures
            s.wf(),
            s.display_tz == DisplayTZ::Utc,
            0 <= s.lat < 6000000,
            0 <= s.lon < 6000000,
            s.sats < 99,
            s.hdop < 2000,
    {
        let (date, time) = clock_now_utc();
        let lat = rng_u32_below(&mut self.rng, 6000000) as i32;
        let lon = rng_u32_below(&mut self.rng, 6000000) as i32;
        let sats = rng_u8_below(&mut self.rng, 99);
        let hdop = rng_u32_below(&mut self.rng, 2000);
        DisplayState { date, time, display_tz: DisplayTZ::Utc, lat, lon, sats, hdop }
    }
}

} // verus!
