//! Interpretation of the native query results: branching on the status code
//! of the dynamic time zone retrieval primitive, decoding the raw record,
//! and decoding the geographic hint buffer.
//!
//! The native calls themselves live outside this library; these functions
//! take the plain values those calls hand back and produce fully validated,
//! owned results or precise failures.

use vstd::prelude::*;

use crate::ascii::{buffer_clean, decode_error, decoded_chars, BoundedAscii};
use crate::types::{
    info_matches, record_clean, record_error, DynamicTimeZone, DynamicTimeZoneInfo,
    RawDynamicTimeZoneInformation,
};
use crate::DynamicTimeZoneError;

verus! {

impl DynamicTimeZoneInfo {
    /// Decodes every field of the raw record. Construction is atomic: the
    /// first text buffer that fails to decode fails the whole record, and no
    /// partially decoded record is ever returned.
    pub fn try_from_system_info(sys_info: RawDynamicTimeZoneInformation) -> (r: Result<
        Self,
        DynamicTimeZoneError,
    >)
        ensures
            record_clean(sys_info) ==> (r matches Ok(z) && info_matches(z, sys_info) && z.wf()),
            !record_clean(sys_info) ==> r == Err::<Self, DynamicTimeZoneError>(
                record_error(sys_info),
            ),
    {
        let standard_name = match BoundedAscii::<32>::try_from_raw_u16(&sys_info.standard_name) {
            Ok(name) => name,
            Err(e) => {
                return Err(DynamicTimeZoneError::ParsingError(e));
            },
        };
        let daylight_name = match BoundedAscii::<32>::try_from_raw_u16(&sys_info.daylight_name) {
            Ok(name) => name,
            Err(e) => {
                return Err(DynamicTimeZoneError::ParsingError(e));
            },
        };
        let tz_key_name = match BoundedAscii::<128>::try_from_raw_u16(
            &sys_info.time_zone_key_name,
        ) {
            Ok(name) => name,
            Err(e) => {
                return Err(DynamicTimeZoneError::ParsingError(e));
            },
        };
        Ok(
            Self {
                bias: sys_info.bias,
                standard_name,
                standard_date: sys_info.standard_date,
                daylight_name,
                daylight_date: sys_info.daylight_date,
                daylight_bias: sys_info.daylight_bias,
                tz_key_name,
                dyn_daylight_time_disabled: sys_info.dynamic_daylight_time_disabled,
            },
        )
    }

    /// Branches strictly on the status code of the native retrieval
    /// primitive: 0 means no time zone is known and the record is never
    /// examined, 1 and 2 mean the record is valid and standard or daylight
    /// time is in effect, and anything else is a native contract violation.
    pub fn from_return_code_and_system_info(
        return_code: u32,
        info: RawDynamicTimeZoneInformation,
    ) -> (r: Result<DynamicTimeZone, DynamicTimeZoneError>)
        ensures
            return_code == 0 ==> r == Err::<DynamicTimeZone, DynamicTimeZoneError>(
                DynamicTimeZoneError::TimeZoneUnknown,
            ),
            return_code == 1 && record_clean(info) ==> (r matches Ok(
                DynamicTimeZone::StandardTimeZone(z),
            ) && info_matches(z, info) && z.wf()),
            return_code == 2 && record_clean(info) ==> (r matches Ok(
                DynamicTimeZone::DaylightSavingsTimeZone(z),
            ) && info_matches(z, info) && z.wf()),
            (return_code == 1 || return_code == 2) && !record_clean(info) ==> r == Err::<
                DynamicTimeZone,
                DynamicTimeZoneError,
            >(record_error(info)),
            return_code > 2 ==> r == Err::<DynamicTimeZone, DynamicTimeZoneError>(
                DynamicTimeZoneError::InvalidReturnCode,
            ),
    {
        match return_code {
            0 => Err(DynamicTimeZoneError::TimeZoneUnknown),
            1 => match DynamicTimeZoneInfo::try_from_system_info(info) {
                Ok(z) => Ok(DynamicTimeZone::StandardTimeZone(z)),
                Err(e) => Err(e),
            },
            2 => match DynamicTimeZoneInfo::try_from_system_info(info) {
                Ok(z) => Ok(DynamicTimeZone::DaylightSavingsTimeZone(z)),
                Err(e) => Err(e),
            },
            _ => Err(DynamicTimeZoneError::InvalidReturnCode),
        }
    }
}

/// Interprets the outcome of the native geographic hint primitive: a zero
/// result reports the OS's last-error code, and a successful result hands
/// back a fixed-width buffer whose trailing terminator slot is dropped
/// before bounded ASCII decoding.
pub fn decode_geoname(result: u32, last_error: u32, buffer: &[u16; 4]) -> (r: Result<
    BoundedAscii<3>,
    DynamicTimeZoneError,
>)
    ensures
        result == 0 ==> r == Err::<BoundedAscii<3>, DynamicTimeZoneError>(
            DynamicTimeZoneError::SyscallErrorCode(last_error),
        ),
        result != 0 && buffer_clean(buffer@.take(3)) ==> (r matches Ok(g) && g@ == decoded_chars(
            buffer@.take(3),
        )),
        result != 0 && !buffer_clean(buffer@.take(3)) ==> r == Err::<
            BoundedAscii<3>,
            DynamicTimeZoneError,
        >(DynamicTimeZoneError::ParsingError(decode_error(buffer@.take(3)))),
{
    if result == 0 {
        return Err(DynamicTimeZoneError::SyscallErrorCode(last_error));
    }
    let trunc: [u16; 3] = [buffer[0], buffer[1], buffer[2]];
    proof {
        assert(trunc@ =~= buffer@.take(3));
    }
    match BoundedAscii::<3>::try_from_raw_u16(&trunc) {
        Ok(g) => Ok(g),
        Err(e) => Err(DynamicTimeZoneError::ParsingError(e)),
    }
}

} // verus!
