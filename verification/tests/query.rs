use win_tz::get_iana_time_zone;
use win_tz::types::{DynamicTimeZone, DynamicTimeZoneInfo, RawDynamicTimeZoneInformation,
    WinSystemTime};
use win_tz::windows::decode_geoname;
use win_tz::windows_zones::MapZone;
use win_tz::{DynamicTimeZoneError, ParseError};

fn zero_time() -> WinSystemTime {
    WinSystemTime {
        year: 0,
        month: 0,
        day_of_week: 0,
        day: 0,
        hour: 0,
        minute: 0,
        second: 0,
        milliseconds: 0,
    }
}

fn wide32(text: &str) -> [u16; 32] {
    let mut buffer = [0u16; 32];
    for (i, b) in text.bytes().enumerate() {
        buffer[i] = b as u16;
    }
    buffer
}

fn wide128(text: &str) -> [u16; 128] {
    let mut buffer = [0u16; 128];
    for (i, b) in text.bytes().enumerate() {
        buffer[i] = b as u16;
    }
    buffer
}

fn eastern_record() -> RawDynamicTimeZoneInformation {
    RawDynamicTimeZoneInformation {
        bias: 300,
        standard_name: wide32("Eastern Standard Time"),
        standard_date: zero_time(),
        daylight_name: wide32("Eastern Daylight Time"),
        daylight_date: zero_time(),
        daylight_bias: -60,
        time_zone_key_name: wide128("Eastern Standard Time"),
        dynamic_daylight_time_disabled: 0,
    }
}

fn zone(windows_id: &str, territory: &str, iana_id: &str) -> MapZone {
    MapZone {
        windows_id: windows_id.to_owned(),
        iana_id: iana_id.to_owned(),
        territory: territory.to_owned(),
    }
}

fn table() -> Vec<MapZone> {
    vec![
        zone("Eastern Standard Time", "001", "America/New_York"),
        zone("Eastern Standard Time", "US", "America/New_York"),
        zone("GMT Standard Time", "001", "Europe/London"),
    ]
}

fn us_geoname() -> [u16; 4] {
    [b'U' as u16, b'S' as u16, 0, 0]
}

#[test]
fn get_iana_test_runner() {
    let zones = table();
    let result =
        get_iana_time_zone(1, eastern_record(), 1, 0, &us_geoname(), &zones).unwrap();
    println!("{result}");
}

#[test]
fn resolves_daylight_record_too() {
    let zones = table();
    let result =
        get_iana_time_zone(2, eastern_record(), 1, 0, &us_geoname(), &zones).unwrap();
    assert_eq!(&result, "America/New_York");
}

#[test]
fn status_zero_is_unknown_without_reading_record() {
    // The record is deliberately malformed: with status 0 it must never be
    // examined, so no decoding error may surface.
    let mut record = eastern_record();
    record.standard_name[0] = 0xFFFF;
    record.time_zone_key_name[0] = 0xFFFF;
    let zones = table();
    let result = get_iana_time_zone(0, record, 1, 0, &us_geoname(), &zones);
    assert_eq!(result, Err(DynamicTimeZoneError::TimeZoneUnknown));
}

#[test]
fn unrecognized_status_is_invalid_return_code() {
    let zones = table();
    let result = get_iana_time_zone(99, eastern_record(), 1, 0, &us_geoname(), &zones);
    assert_eq!(result, Err(DynamicTimeZoneError::InvalidReturnCode));
}

#[test]
fn malformed_record_reports_decoder_error() {
    let mut record = eastern_record();
    record.daylight_name[3] = 0x0391;
    let zones = table();
    let result = get_iana_time_zone(1, record, 1, 0, &us_geoname(), &zones);
    assert_eq!(
        result,
        Err(DynamicTimeZoneError::ParsingError(ParseError::NonAscii))
    );
}

#[test]
fn geoname_syscall_failure_carries_error_code() {
    let zones = table();
    let result = get_iana_time_zone(1, eastern_record(), 0, 87, &us_geoname(), &zones);
    assert_eq!(result, Err(DynamicTimeZoneError::SyscallErrorCode(87)));
}

#[test]
fn decode_geoname_reads_territory() {
    let geoname = decode_geoname(1, 0, &us_geoname()).unwrap();
    assert_eq!(geoname.as_str(), "US");
}

#[test]
fn decode_geoname_failure_reports_last_error() {
    let result = decode_geoname(0, 5, &us_geoname());
    assert!(matches!(
        result,
        Err(DynamicTimeZoneError::SyscallErrorCode(5))
    ));
}

#[test]
fn standard_record_decodes_field_for_field() {
    let outcome = DynamicTimeZoneInfo::from_return_code_and_system_info(1, eastern_record());
    match outcome.unwrap() {
        DynamicTimeZone::StandardTimeZone(info) => {
            assert_eq!(info.bias, 300);
            assert_eq!(info.standard_name.as_str(), "Eastern Standard Time");
            assert_eq!(info.daylight_name.as_str(), "Eastern Daylight Time");
            assert_eq!(info.daylight_bias, -60);
            assert_eq!(info.tz_key_name.as_str(), "Eastern Standard Time");
            assert_eq!(info.dyn_daylight_time_disabled, 0);
            assert_eq!(info.standard_date, zero_time());
        }
        DynamicTimeZone::DaylightSavingsTimeZone(_) => panic!(),
    }
}

#[test]
fn daylight_status_tags_daylight_variant() {
    let outcome = DynamicTimeZoneInfo::from_return_code_and_system_info(2, eastern_record());
    assert!(matches!(
        outcome.unwrap(),
        DynamicTimeZone::DaylightSavingsTimeZone(_)
    ));
}
