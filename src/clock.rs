//! # DateTime device
//! The local date and time, as the DateTime page presents it byte by byte.
use chrono::{Datelike, Timelike};
use vstd::prelude::*;

verus! {

/// A reading of the local date and time, field by field.
#[derive(Clone, Copy, Debug, PartialEq, Eq, Structural)]
pub struct ClockReading {
    pub year: i32,
    /// Month, from 0.
    pub month0: u32,
    /// Day of the month, from 0.
    pub day0: u32,
    pub hour: u32,
    pub minute: u32,
    pub second: u32,
    /// Day of the week, Monday being 0.
    pub weekday: u32,
    /// Day of the year, from 0.
    pub ordinal0: u32,
}

impl ClockReading {
    /// Every field is within its calendar range.
    pub open spec fn wf(&self) -> bool {
        &&& self.month0 < 12
        &&& self.day0 < 31
        &&& self.hour < 24
        &&& self.minute < 60
        &&& self.second < 60
        &&& self.weekday < 7
        &&& self.ordinal0 < 366
    }
}

/// The byte that DateTime port `port` shows for `t`; `shadow` for ports that
/// carry no field.
pub open spec fn clock_byte(t: ClockReading, port: u8, shadow: u8) -> u8 {
    if port == 0x00 {
        ((t.year as u16) >> 8u16) as u8
    } else if port == 0x01 {
        ((t.year as u16) & 0xffu16) as u8
    } else if port == 0x02 {
        t.month0 as u8
    } else if port == 0x03 {
        t.day0 as u8
    } else if port == 0x04 {
        t.hour as u8
    } else if port == 0x05 {
        t.minute as u8
    } else if port == 0x06 {
        t.second as u8
    } else if port == 0x07 {
        t.weekday as u8
    } else if port == 0x08 {
        (t.ordinal0 >> 8u32) as u8
    } else if port == 0x09 {
        ((t.ordinal0 + 1) as u32 & 0xffu32) as u8
    } else {
        shadow
    }
}

/// Relies on chrono's `Local::now` and its `Datelike` / `Timelike` accessors
/// (`month0`, `day0`, `hour`, `minute`, `second`, `weekday`, `ordinal0`):
/// the local date and time, each field in the range chrono documents.
#[verifier::external_body]
pub(crate) fn local_now() -> (r: ClockReading)
    ensures
        r.wf(),
{
    let t = chrono::Local::now();
    ClockReading {
        year: t.year(),
        month0: t.month0(),
        day0: t.day0(),
        hour: t.hour(),
        minute: t.minute(),
        second: t.second(),
        weekday: t.weekday().num_days_from_monday(),
        ordinal0: t.ordinal0(),
    }
}

/// The byte that DateTime port `port` (the low nibble of the address) shows
/// for the reading `t`, or `shadow` where the port carries no field.
pub fn clock_port(t: &ClockReading, port: u8, shadow: u8) -> (r: u8)
    requires
        t.wf(),
    ensures
        r == clock_byte(*t, port, shadow),
{
    match port {
        0x00 => ((t.year as u16) >> 8) as u8,
        0x01 => ((t.year as u16) & 0x00ff) as u8,
        0x02 => t.month0 as u8,
        0x03 => t.day0 as u8,
        0x04 => t.hour as u8,
        0x05 => t.minute as u8,
        0x06 => t.second as u8,
        0x07 => t.weekday as u8,
        0x08 => (t.ordinal0 >> 8) as u8,
        0x09 => ((t.ordinal0 + 1) & 0xff) as u8,
        _ => shadow,
    }
}

} // verus!
