//! The computing half of the acquisition path: assembling serial bytes into
//! candidate sentence lines, and building a fresh fix snapshot from the
//! optional fields an external sentence decoder reports. Reading the bytes
//! and running the decoder stay outside; this module only decides.
use vstd::prelude::*;

use crate::time::{Date, TimeOfDay};
use crate::{DisplayState, DisplayTZ};

verus! {

/// Fixed capacity of the line buffer, in bytes. A longer line is silently
/// truncated rather than failing the loop.
pub const LINE_CAPACITY: usize = 128;

/// Line feed ends a line.
pub const BYTE_LF: u8 = 10;

/// Carriage return is stripped wherever it appears.
pub const BYTE_CR: u8 = 13;

/// Assembles a byte stream into lines: bytes accumulate up to the fixed
/// capacity, carriage returns are dropped, and a line feed hands the
/// accumulated line out and clears the buffer.
pub struct LineAssembler {
    buf: Vec<u8>,
}

impl LineAssembler {
    /// The bytes accumulated so far.
    pub closed spec fn spec_buffered(self) -> Seq<u8> {
        self.buf@
    }

    /// The buffer never exceeds its fixed capacity.
    pub open spec fn wf(self) -> bool {
        self.spec_buffered().len() <= LINE_CAPACITY
    }

    /// A fresh assembler with an empty buffer.
    pub fn new() -> (a: LineAssembler)
        ensures
            a.spec_buffered() == Seq::<u8>::empty(),
            a.wf(),
    {
        LineAssembler { buf: Vec::new() }
    }

    /// Feed one byte. A line feed completes the line: the accumulated
    /// bytes come out and the buffer is cleared, whatever the line holds.
    /// A carriage return is dropped. Any other byte is appended while
    /// there is room and silently discarded once the buffer is full.
    pub fn push_byte(&mut self, b: u8) -> (line: Option<Vec<u8>>)
        requires
            old(self).wf(),
        ensures
            final(self).wf(),
            b == BYTE_LF ==> line.is_some() && line.unwrap()@ == old(self).spec_buffered()
                && final(self).spec_buffered() == Seq::<u8>::empty(),
            b != BYTE_LF ==> line.is_none(),
            b == BYTE_CR ==> final(self).spec_buffered() == old(self).spec_buffered(),
            b != BYTE_LF && b != BYTE_CR && old(self).spec_buffered().len() < LINE_CAPACITY
                ==> final(self).spec_buffered() == old(self).spec_buffered().push(b),
            b != BYTE_LF && b != BYTE_CR && old(self).spec_buffered().len() == LINE_CAPACITY
                ==> final(self).spec_buffered() == old(self).spec_buffered(),
    {
        if b == BYTE_LF {
            let mut line: Vec<u8> = Vec::new();
            core::mem::swap(&mut line, &mut self.buf);
            Some(line)
        } else if b == BYTE_CR {
            None
        } else {
            if self.buf.len() < LINE_CAPACITY {
                self.buf.push(b);
            }
            None
        }
    }
}

impl Default for LineAssembler {
    fn default() -> (a: LineAssembler)
        ensures
            a.spec_buffered() == Seq::<u8>::empty(),
            a.wf(),
    {
        LineAssembler::new()
    }
}

/// The optional fields of one successfully decoded sentence, as plain
/// values: coordinates in microdegrees, dilution of precision in
/// hundredths, and the satellite count already taken from the decoded
/// list's length.
#[derive(Clone, Copy, Debug, PartialEq, Eq, Structural)]
pub struct DecodedFix {
    pub latitude: Option<i32>,
    pub longitude: Option<i32>,
    pub date: Option<Date>,
    pub time_of_day: Option<TimeOfDay>,
    pub satellite_count: u8,
    pub hdop: Option<u32>,
}

/// The snapshot a decoded sentence produces: defaults overwritten by the
/// fields the decode carried. Coordinates are applied only when both are
/// present; a partial fix leaves both at zero.
pub open spec fn spec_built_snapshot(f: DecodedFix, tz: DisplayTZ) -> DisplayState {
    DisplayState {
        date: match f.date {
            Some(d) => d,
            None => Date { year: 1970, month: 1, day: 1 },
        },
        time: match f.time_of_day {
            Some(t) => t,
            None => TimeOfDay { hour: 0, minute: 0, second: 0 },
        },
        display_tz: tz,
        lat: if f.latitude.is_some() && f.longitude.is_some() {
            f.latitude.unwrap()
        } else {
            0
        },
        lon: if f.latitude.is_some() && f.longitude.is_some() {
            f.longitude.unwrap()
        } else {
            0
        },
        sats: f.satellite_count,
        hdop: match f.hdop {
            Some(h) => h,
            None => 0,
        },
    }
}

/// Build the snapshot to publish for one successfully decoded sentence:
/// start from the all-defaults snapshot, set the satellite count, apply
/// the coordinates only if both are present, record date and time
/// independently if each is present, and set the dilution of precision if
/// present. The display timezone is the configured one.
pub fn build_snapshot(f: &DecodedFix, display_tz: DisplayTZ) -> (s: DisplayState)
    ensures
        s == spec_built_snapshot(*f, display_tz),
{
    let mut s = DisplayState::default();
    s.display_tz = display_tz;
    s.sats = f.satellite_count;
    if let (Some(lat), Some(lon)) = (f.latitude, f.longitude) {
        s.lat = lat;
        s.lon = lon;
    }
    if let Some(d) = f.date {
        s.update_date(d);
    }
    if let Some(t) = f.time_of_day {
        s.update_utc_time(t);
    }
    if let Some(h) = f.hdop {
        s.hdop = h;
    }
    s
}

} // verus!
