//! Resolves the operating system's native dynamic time zone record into a
//! canonical IANA time zone identifier, using the public cross-reference
//! table of (native identifier, territory, canonical identifier) triples.

use vstd::prelude::*;

pub mod ascii;
pub mod types;
pub mod windows;
pub mod windows_zones;

use crate::ascii::{buffer_clean, decode_error, decoded_chars};
use crate::types::{record_clean, record_error, DynamicTimeZone, DynamicTimeZoneInfo,
    RawDynamicTimeZoneInformation};
use crate::windows::decode_geoname;
use crate::windows_zones::{find_zone, zone_matches, MapZone};

verus! {

/// The kinds of failure a bounded ASCII decode can report.
#[derive(Debug, PartialEq, Eq, Structural, Clone, Copy)]
pub enum ParseError {
    /// The decoded text exceeds the capacity of the target identifier.
    TooLong,
    /// A null code unit appears before the end of the text.
    ContainsNull,
    /// A code unit lies outside the ASCII range.
    NonAscii,
}

/// Every failure the time zone query and resolution pipeline can report.
#[derive(Debug, PartialEq, Eq, Structural, Clone, Copy)]
pub enum DynamicTimeZoneError {
    /// The OS reports no configured time zone, or the resolver found no
    /// matching entry in the cross-reference table.
    TimeZoneUnknown,
    /// The native status code lies outside the documented set.
    InvalidReturnCode,
    /// A fixed-width native text buffer failed bounded ASCII decoding.
    IllformedTimeZoneString,
    /// The cross-reference data file could not be read.
    FileReadError,
    /// The cross-reference data file could not be parsed.
    DeserializeDataError,
    /// A fixed-width native text buffer failed bounded ASCII decoding,
    /// with the decoder's own error kind.
    ParsingError(ParseError),
    /// The native geographic hint primitive failed with this OS error code.
    SyscallErrorCode(u32),
}

/// The territory a lookup uses: the one the caller supplied, or the
/// world fallback `"001"` when none was.
pub open spec fn effective_territory(territory: Option<&str>) -> Seq<char> {
    match territory {
        Some(t) => t@,
        None => "001"@,
    }
}

/// Exact, case-sensitive string equality.
fn str_eq(a: &str, b: &str) -> (r: bool)
    ensures
        r == (a@ == b@),
{
    let sa: String = a.to_owned();
    let sb: String = b.to_owned();
    sa == sb
}

/// Translates a native time zone identifier into the canonical IANA
/// identifier of the first cross-reference entry matching it together with
/// the requested territory. When no territory is supplied the world
/// fallback `"001"` is used; when one is supplied and no entry matches it,
/// the lookup fails rather than falling back.
pub fn map_win_tz_to_iana_tz(target: &str, territory: Option<&str>, zones: &[MapZone]) -> (r:
    Result<String, DynamicTimeZoneError>)
    ensures
        ({
            match find_zone(zones@, target@, effective_territory(territory)) {
                Some(v) => r matches Ok(s) && s@ == v,
                None => r == Err::<String, DynamicTimeZoneError>(
                    DynamicTimeZoneError::TimeZoneUnknown,
                ),
            }
        }),
{
    let target_territory: &str = match territory {
        Some(t) => t,
        None => "001",
    };
    let ghost eff = effective_territory(territory);
    assert(target_territory@ == eff);
    proof {
        assert(zones@.skip(0) =~= zones@);
    }
    let mut i: usize = 0;
    while i < zones.len()
        invariant
            0 <= i <= zones@.len(),
            eff == effective_territory(territory),
            target_territory@ == eff,
            find_zone(zones@, target@, eff) == find_zone(zones@.skip(i as int), target@, eff),
        decreases zones@.len() - i,
    {
        let zone = &zones[i];
        proof {
            assert(zones@.skip(i as int)[0] == zones@[i as int]);
        }
        if str_eq(zone.windows_id.as_str(), target) && str_eq(
            zone.territory.as_str(),
            target_territory,
        ) {
            proof {
                assert(zone_matches(zones@[i as int], target@, eff));
                assert(find_zone(zones@.skip(i as int), target@, eff) == Some(
                    zones@[i as int].iana_id@,
                ));
            }
            return Ok(zone.iana_id.clone());
        }
        proof {
            assert(!zone_matches(zones@[i as int], target@, eff));
            assert(zones@.skip(i as int).drop_first() =~= zones@.skip(i as int + 1));
        }
        i += 1;
    }
    proof {
        assert(zones@.skip(i as int).len() == 0);
    }
    Err(DynamicTimeZoneError::TimeZoneUnknown)
}

/// Resolves the outcome of the two native queries into a canonical IANA
/// identifier: interprets the retrieval primitive's status code, decodes
/// the raw record, decodes the geographic hint, and looks the record's
/// registry key name up in the cross-reference table under that hint. The
/// first failing step fails the whole resolution.
pub fn get_iana_time_zone(
    return_code: u32,
    info: RawDynamicTimeZoneInformation,
    geo_result: u32,
    geo_last_error: u32,
    geo_buffer: &[u16; 4],
    zones: &[MapZone],
) -> (r: Result<String, DynamicTimeZoneError>)
    ensures
        return_code == 0 ==> r == Err::<String, DynamicTimeZoneError>(
            DynamicTimeZoneError::TimeZoneUnknown,
        ),
        return_code > 2 ==> r == Err::<String, DynamicTimeZoneError>(
            DynamicTimeZoneError::InvalidReturnCode,
        ),
        (return_code == 1 || return_code == 2) && !record_clean(info) ==> r == Err::<
            String,
            DynamicTimeZoneError,
        >(record_error(info)),
        (return_code == 1 || return_code == 2) && record_clean(info) && geo_result == 0 ==> r
            == Err::<String, DynamicTimeZoneError>(
            DynamicTimeZoneError::SyscallErrorCode(geo_last_error),
        ),
        (return_code == 1 || return_code == 2) && record_clean(info) && geo_result != 0
            && !buffer_clean(geo_buffer@.take(3)) ==> r == Err::<String, DynamicTimeZoneError>(
            DynamicTimeZoneError::ParsingError(decode_error(geo_buffer@.take(3))),
        ),
        (return_code == 1 || return_code == 2) && record_clean(info) && geo_result != 0
            && buffer_clean(geo_buffer@.take(3)) ==> ({
            match find_zone(
                zones@,
                decoded_chars(info.time_zone_key_name@),
                decoded_chars(geo_buffer@.take(3)),
            ) {
                Some(v) => r matches Ok(s) && s@ == v,
                None => r == Err::<String, DynamicTimeZoneError>(
                    DynamicTimeZoneError::TimeZoneUnknown,
                ),
            }
        }),
{
    let local = match DynamicTimeZoneInfo::from_return_code_and_system_info(return_code, info) {
        Ok(l) => l,
        Err(e) => {
            return Err(e);
        },
    };
    let geoname = match decode_geoname(geo_result, geo_last_error, geo_buffer) {
        Ok(g) => g,
        Err(e) => {
            return Err(e);
        },
    };
    match local {
        DynamicTimeZone::DaylightSavingsTimeZone(zoneinfo) => map_win_tz_to_iana_tz(
            zoneinfo.tz_key_name.as_str(),
            Some(geoname.as_str()),
            zones,
        ),
        DynamicTimeZone::StandardTimeZone(zoneinfo) => map_win_tz_to_iana_tz(
            zoneinfo.tz_key_name.as_str(),
            Some(geoname.as_str()),
            zones,
        ),
    }
}

} // verus!
