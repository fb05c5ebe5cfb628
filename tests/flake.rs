use chrono::{DateTime, TimeZone, Utc};
use std::time::{Duration, SystemTime};
use tiltflake::{EpochType, Tiltflake, Timestamp};

fn ts(dt: DateTime<Utc>) -> Timestamp {
    Timestamp::new(dt.timestamp_millis(), dt.timestamp_subsec_nanos() % 1_000_000)
}

#[test]
fn generate_with_unix_epoch() {
    let unix_epoch = EpochType::Unix;
    let snowflake = Tiltflake::new(1, &unix_epoch);
    let id = snowflake.generate_from_unix_millis(0, 0).unwrap(); // 1970-01-01T00:00:00Z
    let (datetime, machine_id, sequence) = snowflake.parse(id);
    assert_eq!(datetime, ts(Utc.with_ymd_and_hms(1970, 1, 1, 0, 0, 0).unwrap()));
    assert_eq!(machine_id, 1);
    assert_eq!(sequence, 0);
}

#[test]
fn generate_with_discord_epoch() {
    let discord_epoch = EpochType::Discord;
    let snowflake = Tiltflake::new(2, &discord_epoch);
    let id = snowflake
        .generate_from_unix_millis(1420070400000, 0)
        .unwrap(); // 2015-01-01T00:00:00Z
    let (datetime, machine_id, sequence) = snowflake.parse(id);
    assert_eq!(datetime, ts(Utc.with_ymd_and_hms(2015, 1, 1, 0, 0, 0).unwrap()));
    assert_eq!(machine_id, 2);
    assert_eq!(sequence, 0);
}

#[test]
fn new_initializes_with_masked_machine_id() {
    let custom_epoch = ts(Utc.with_ymd_and_hms(2020, 1, 1, 0, 0, 0).unwrap());
    let snowflake = Tiltflake::new(0xFFFF, &EpochType::Custom(custom_epoch));
    assert_eq!(snowflake.machine_id, 0x3FF);
    assert_eq!(snowflake.custom_epoch, custom_epoch);
}

#[test]
fn generate_from_unix_millis_creates_valid_id() {
    let custom_epoch = ts(Utc.with_ymd_and_hms(2020, 1, 1, 0, 0, 0).unwrap());
    let snowflake = Tiltflake::new(1, &EpochType::Custom(custom_epoch));
    let id = snowflake
        .generate_from_unix_millis(1577836800000, 0)
        .unwrap(); // Jan 1, 2020
    let (datetime, machine_id, sequence) = snowflake.parse(id);
    assert_eq!(datetime, custom_epoch);
    assert_eq!(machine_id, 1);
    assert_eq!(sequence, 0);
}

#[test]
fn generate_from_system_time_creates_valid_id() {
    let custom_epoch = ts(Utc.with_ymd_and_hms(2020, 1, 1, 0, 0, 0).unwrap());
    let snowflake = Tiltflake::new(2, &EpochType::Custom(custom_epoch));
    let system_time = SystemTime::UNIX_EPOCH + Duration::from_millis(1577836800000); // Jan 1, 2020
    let id = snowflake.generate_from_system_time(system_time, 5).unwrap();
    let (datetime, machine_id, sequence) = snowflake.parse(id);
    assert_eq!(datetime, custom_epoch);
    assert_eq!(machine_id, 2);
    assert_eq!(sequence, 5);
}

#[test]
fn generate_from_rfc3339_parses_valid_id() {
    let custom_epoch = ts(Utc.with_ymd_and_hms(2020, 1, 1, 0, 0, 0).unwrap());
    let snowflake = Tiltflake::new(3, &EpochType::Custom(custom_epoch));
    let id = snowflake
        .generate_from_rfc3339("2020-01-01T00:00:00Z", 10)
        .unwrap();
    let (datetime, machine_id, sequence) = snowflake.parse(id);
    assert_eq!(datetime, custom_epoch);
    assert_eq!(machine_id, 3);
    assert_eq!(sequence, 10);
}

#[test]
fn parse_correctly_extracts_components() {
    let custom_epoch = ts(Utc.with_ymd_and_hms(2020, 1, 1, 0, 0, 0).unwrap());
    let snowflake = Tiltflake::new(4, &EpochType::Custom(custom_epoch));
    let id = snowflake
        .generate_from_unix_millis(1577836800000, 15)
        .unwrap(); // Jan 1, 2020
    let (datetime, machine_id, sequence) = snowflake.parse(id);
    assert_eq!(datetime, custom_epoch);
    assert_eq!(machine_id, 4);
    assert_eq!(sequence, 15);
}

#[test]
fn generate_from_unix_millis_handles_max_range() {
    let custom_epoch = Utc.with_ymd_and_hms(2000, 1, 1, 0, 0, 0).unwrap();
    let snowflake = Tiltflake::new(5, &EpochType::Custom(ts(custom_epoch)));

    // Maximum timestamp within 41 bits
    let max_millis = custom_epoch.timestamp_millis() + (1i64 << 41) - 1;
    let id = snowflake
        .generate_from_unix_millis(max_millis as u64, 0)
        .unwrap();
    let (datetime, machine_id, sequence) = snowflake.parse(id);

    assert_eq!(datetime.unix_millis(), max_millis);
    assert_eq!(machine_id, 5);
    assert_eq!(sequence, 0);
}
