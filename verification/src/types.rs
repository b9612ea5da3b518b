//! The data model of the native dynamic time zone query: the raw record the
//! operating system fills in, and the fully decoded, owned record built from
//! it.

use vstd::prelude::*;

use crate::ascii::{buffer_clean, decode_error, decoded_chars, BoundedAscii};
use crate::DynamicTimeZoneError;

verus! {

/// A native wall-clock point: eight unsigned 16-bit fields. No arithmetic is
/// ever performed on it here; it only rides along inside the time zone
/// record.
#[derive(Debug, Clone, Copy, PartialEq, Eq, Structural)]
pub struct WinSystemTime {
    pub year: u16,
    pub month: u16,
    pub day_of_week: u16,
    pub day: u16,
    pub hour: u16,
    pub minute: u16,
    pub second: u16,
    pub milliseconds: u16,
}

/// The raw dynamic time zone record as the native retrieval primitive lays
/// it out: signed bias fields, two fixed-width wide-character name buffers,
/// two embedded wall-clock sub-records, the registry key name buffer, and a
/// flag byte. Its text buffers are undecoded wide code units.
#[derive(Debug, Clone, Copy)]
pub struct RawDynamicTimeZoneInformation {
    pub bias: i32,
    pub standard_name: [u16; 32],
    pub standard_date: WinSystemTime,
    pub daylight_name: [u16; 32],
    pub daylight_date: WinSystemTime,
    pub daylight_bias: i32,
    pub time_zone_key_name: [u16; 128],
    pub dynamic_daylight_time_disabled: u8,
}

/// The decoded native dynamic time zone record: every fixed-width text
/// buffer has been copied into an owned, bounded ASCII identifier.
#[derive(Debug)]
pub struct DynamicTimeZoneInfo {
    pub bias: i32,
    pub standard_name: BoundedAscii<32>,
    pub standard_date: WinSystemTime,
    pub daylight_name: BoundedAscii<32>,
    pub daylight_date: WinSystemTime,
    pub daylight_bias: i32,
    pub tz_key_name: BoundedAscii<128>,
    pub dyn_daylight_time_disabled: u8,
}

impl DynamicTimeZoneInfo {
    /// The record's invariant: every bounded ASCII identifier is within its
    /// capacity and holds only non-null ASCII characters. Constructors
    /// establish it or fail; nothing ever weakens it afterwards.
    pub open spec fn wf(&self) -> bool {
        &&& self.standard_name.wf()
        &&& self.daylight_name.wf()
        &&& self.tz_key_name.wf()
    }
}

/// The decoded record, tagged with which kind of time the native status
/// code reported to be currently in effect.
#[derive(Debug)]
pub enum DynamicTimeZone {
    StandardTimeZone(DynamicTimeZoneInfo),
    DaylightSavingsTimeZone(DynamicTimeZoneInfo),
}

/// Whether every text buffer of the raw record decodes cleanly.
pub open spec fn record_clean(info: RawDynamicTimeZoneInformation) -> bool {
    &&& buffer_clean(info.standard_name@)
    &&& buffer_clean(info.daylight_name@)
    &&& buffer_clean(info.time_zone_key_name@)
}

/// The error a raw record with a failing text buffer reports: the buffers
/// are decoded in declaration order, and the first failure wins.
pub open spec fn record_error(info: RawDynamicTimeZoneInformation) -> DynamicTimeZoneError {
    if !buffer_clean(info.standard_name@) {
        DynamicTimeZoneError::ParsingError(decode_error(info.standard_name@))
    } else if !buffer_clean(info.daylight_name@) {
        DynamicTimeZoneError::ParsingError(decode_error(info.daylight_name@))
    } else {
        DynamicTimeZoneError::ParsingError(decode_error(info.time_zone_key_name@))
    }
}

/// Whether `z` is exactly the decoding of the raw record `info`: the plain
/// fields copied, and every text buffer decoded character for character.
pub open spec fn info_matches(z: DynamicTimeZoneInfo, info: RawDynamicTimeZoneInformation) -> bool {
    &&& z.bias == info.bias
    &&& z.standard_name@ == decoded_chars(info.standard_name@)
    &&& z.standard_date == info.standard_date
    &&& z.daylight_name@ == decoded_chars(info.daylight_name@)
    &&& z.daylight_date == info.daylight_date
    &&& z.daylight_bias == info.daylight_bias
    &&& z.tz_key_name@ == decoded_chars(info.time_zone_key_name@)
    &&& z.dyn_daylight_time_disabled == info.dynamic_daylight_time_disabled
}

} // verus!
