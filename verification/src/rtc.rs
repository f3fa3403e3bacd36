//! A minimal MC146818 real-time clock: an index port and a data port
//! whose time registers reflect the host's wall clock.

use chrono::Datelike;
use chrono::Timelike;
use vstd::prelude::*;

verus! {

/// One reading of the host's wall clock, split into the calendar fields
/// the RTC registers expose.
#[derive(Debug, Clone, Copy, PartialEq, Eq, Structural)]
pub struct DateParts {
    pub second: u32,
    pub minute: u32,
    pub hour: u32,
    /// Day of week, counting from Sunday = 1.
    pub weekday: u32,
    pub day: u32,
    pub month: u32,
    /// Calendar year (CE), truncated to unsigned.
    pub year: u32,
}

/// The documented ranges of a wall-clock reading.
pub open spec fn date_parts_wf(t: DateParts) -> bool {
    &&& t.second <= 59
    &&& t.minute <= 59
    &&& t.hour <= 23
    &&& 1 <= t.weekday <= 7
    &&& 1 <= t.day <= 31
    &&& 1 <= t.month <= 12
}

/// Relies on chrono's `Utc::now` and its `Datelike`/`Timelike`
/// accessors; the field ranges are the ones chrono documents (seconds
/// and minutes 0..=59, hours 0..=23, weekday-from-Sunday 1..=7, day
/// 1..=31, month 1..=12).
#[verifier::external_body]
fn host_datetime() -> (r: DateParts)
    ensures
        date_parts_wf(r),
{
    let now = chrono::Utc::now().naive_local();
    DateParts {
        second: now.second(),
        minute: now.minute(),
        hour: now.hour(),
        weekday: now.weekday().number_from_sunday(),
        day: now.day(),
        month: now.month(),
        year: now.year() as u32,
    }
}

/// The register file of the clock: only the index register is state; the
/// time registers are derived from the host clock on every read.
pub struct Rtc {
    /// The index written through port `0x70`.
    pub reg: u8,
}

/// The value register `reg` shows for the wall-clock reading `t`:
/// seconds, minutes, hours, weekday, day, month and year-since-2000 for
/// the time registers; `0x26` for status register A; `0x02` (24-hour
/// mode) for status register B; `0xff` for anything else.
pub open spec fn spec_rtc_read(reg: u8, t: DateParts) -> u8 {
    if reg == 0x00 {
        t.second as u8
    } else if reg == 0x02 {
        t.minute as u8
    } else if reg == 0x04 {
        t.hour as u8
    } else if reg == 0x06 {
        t.weekday as u8
    } else if reg == 0x07 {
        t.day as u8
    } else if reg == 0x08 {
        t.month as u8
    } else if reg == 0x09 {
        ((t.year as u64 + 0xfffff830) % 256) as u8
    } else if reg == 0x0a {
        0x26
    } else if reg == 0x0b {
        0x02
    } else {
        0xff
    }
}

impl Rtc {
    /// The data-port value for the selected register, given a wall-clock
    /// reading.
    pub fn read_at(&self, t: &DateParts) -> (r: u8)
        ensures
            r == spec_rtc_read(self.reg, *t),
    {
        if self.reg == 0x00 {
            #[verifier::truncate] (t.second as u8)
        } else if self.reg == 0x02 {
            #[verifier::truncate] (t.minute as u8)
        } else if self.reg == 0x04 {
            #[verifier::truncate] (t.hour as u8)
        } else if self.reg == 0x06 {
            #[verifier::truncate] (t.weekday as u8)
        } else if self.reg == 0x07 {
            #[verifier::truncate] (t.day as u8)
        } else if self.reg == 0x08 {
            #[verifier::truncate] (t.month as u8)
        } else if self.reg == 0x09 {
            ((t.year as u64 + 0xfffff830) % 256) as u8
        } else if self.reg == 0x0a {
            0x26
        } else if self.reg == 0x0b {
            0x02
        } else {
            0xff
        }
    }

    /// The data-port value for the selected register, read against the
    /// host clock now; for the time registers all that holds of the
    /// result is what holds of every wall-clock reading.
    pub fn read(&self) -> (r: u8)
        ensures
            exists|t: DateParts| date_parts_wf(t) && r == spec_rtc_read(self.reg, t),
    {
        let t = host_datetime();
        self.read_at(&t)
    }
}

} // verus!
