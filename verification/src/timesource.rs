//! A fixed time source for the storage driver.
//!
//! The storage volume wants every file operation dated, but the player
//! has no battery-backed clock; it hands out one constant calendar
//! moment instead.

use vstd::prelude::*;

verus! {

/// One calendar moment, broken into plain fields.
#[derive(Clone, Copy, PartialEq, Eq, Structural, Debug)]
pub struct CalendarStamp {
    pub year: u16,
    pub month: u8,
    pub day: u8,
    pub hours: u8,
    pub minutes: u8,
    pub seconds: u8,
}

/// The one moment every operation is dated with: the first second of
/// 2022.
pub open spec fn spec_fixed_stamp() -> CalendarStamp {
    CalendarStamp { year: 2022, month: 1, day: 1, hours: 0, minutes: 0, seconds: 0 }
}

/// A clockless time source: it always reports the same moment.
pub struct DummyTimeSource {}

impl DummyTimeSource {
    pub fn get_timestamp(&self) -> (t: CalendarStamp)
        ensures
            t == spec_fixed_stamp(),
    {
        CalendarStamp { year: 2022, month: 1, day: 1, hours: 0, minutes: 0, seconds: 0 }
    }
}

} // verus!
