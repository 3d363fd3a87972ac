//! UUID timestamps and their conversion to calendar time.

use itty_core::util::{
    ts_to_datetime, ts_to_ms, uuid_and_datetime, uuid_timestamp_to_datetime, uuid_timestamp_to_ms,
    uuid_to_datetime, uuid_to_ms, DateTime, DateTimeError, Timestamp, DATETIME_SECS_MAX,
};
use itty_core::util_uuid;
use uuid::Uuid;

#[test]
fn milliseconds_of_a_plain_timestamp() {
    let ts = Timestamp { secs: 1_700_000_000, nsecs: 123_456_789 };
    assert_eq!(ts_to_ms(ts), Ok(1_700_000_000_123));

    let dt = ts_to_datetime(ts).unwrap();
    assert_eq!(dt, DateTime { secs: 1_700_000_000, nsecs: 123_456_789 });
    assert_eq!(dt.timestamp_millis(), 1_700_000_000_123);
}

#[test]
fn negative_moments_floor_toward_the_epoch() {
    let dt = DateTime { secs: -1, nsecs: 999_000_000 };
    assert_eq!(dt.timestamp_millis(), -1);
}

#[test]
fn out_of_range_timestamps_are_rejected() {
    let too_late = Timestamp { secs: DATETIME_SECS_MAX as u64 + 1, nsecs: 0 };
    assert_eq!(ts_to_datetime(too_late), Err(DateTimeError::OutOfRange));

    let bad_nanos = Timestamp { secs: 0, nsecs: 2_000_000_000 };
    assert_eq!(ts_to_ms(bad_nanos), Err(DateTimeError::OutOfRange));

    let beyond_i64 = Timestamp { secs: i64::MAX as u64 + 1, nsecs: 0 };
    assert_eq!(ts_to_datetime(beyond_i64), Err(DateTimeError::TryFromIntError));

    let last = Timestamp { secs: DATETIME_SECS_MAX as u64, nsecs: 1_999_999_999 };
    assert_eq!(
        ts_to_datetime(last),
        Ok(DateTime { secs: DATETIME_SECS_MAX, nsecs: 1_999_999_999 })
    );
}

#[test]
fn version7_uuids_carry_their_moment() {
    // The version-7 example of RFC 9562, stamped 2022-02-22 14:22:22 GMT.
    let uuid = Uuid::parse_str("017F22E2-79B0-7CC3-98C4-DC0C0C07398F").unwrap();
    assert_eq!(uuid_to_ms(&uuid), Ok(1_645_557_742_000));
    let dt = uuid_to_datetime(&uuid).unwrap();
    assert_eq!(dt.secs, 1_645_557_742);
    assert_eq!(dt.nsecs, 0);

    let same = util_uuid::uuid_to_ts(&uuid).unwrap();
    assert_eq!(same, dt);
}

#[test]
fn the_uuid_module_mirrors_the_conversion_errors() {
    let beyond_i64 = Timestamp { secs: i64::MAX as u64 + 1, nsecs: 0 };
    assert_eq!(
        util_uuid::uuid_ts_to_datetime(beyond_i64),
        Err(util_uuid::DateTimeError::TryFromIntError)
    );
    let too_late = Timestamp { secs: DATETIME_SECS_MAX as u64 + 1, nsecs: 0 };
    assert_eq!(
        util_uuid::uuid_ts_to_datetime(too_late),
        Err(util_uuid::DateTimeError::OutOfRange)
    );
    let fine = Timestamp { secs: 1_700_000_000, nsecs: 0 };
    assert_eq!(
        util_uuid::uuid_ts_to_datetime(fine),
        Ok(DateTime { secs: 1_700_000_000, nsecs: 0 })
    );
}

#[test]
fn versionless_uuids_have_no_moment() {
    assert_eq!(uuid_to_ms(&Uuid::nil()), Err(DateTimeError::IncorrectUuidVersion));
    assert_eq!(uuid_to_datetime(&Uuid::nil()), Err(DateTimeError::IncorrectUuidVersion));
    assert_eq!(
        util_uuid::uuid_to_ts(&Uuid::nil()).err(),
        Some(util_uuid::DateTimeError::IncorrectUuidVersion)
    );
}

#[test]
fn the_extraction_decision_fixes_every_arm() {
    assert_eq!(uuid_timestamp_to_datetime(None), Err(DateTimeError::IncorrectUuidVersion));
    assert_eq!(uuid_timestamp_to_ms(None), Err(DateTimeError::IncorrectUuidVersion));

    let ts = Timestamp { secs: 1_700_000_000, nsecs: 123_456_789 };
    assert_eq!(uuid_timestamp_to_datetime(Some(ts)), ts_to_datetime(ts));
    assert_eq!(uuid_timestamp_to_ms(Some(ts)), Ok(1_700_000_000_123));

    let beyond_i64 = Timestamp { secs: i64::MAX as u64 + 1, nsecs: 0 };
    assert_eq!(
        uuid_timestamp_to_datetime(Some(beyond_i64)),
        Err(DateTimeError::TryFromIntError)
    );

    assert_eq!(
        util_uuid::extracted_ts_to_datetime(None),
        Err(util_uuid::DateTimeError::IncorrectUuidVersion)
    );
    assert_eq!(
        util_uuid::extracted_ts_to_datetime(Some(ts)),
        Ok(DateTime { secs: 1_700_000_000, nsecs: 123_456_789 })
    );
}

#[test]
fn fresh_uuids_come_with_a_consistent_moment() {
    let (uuid, dt) = uuid_and_datetime();
    assert_eq!(uuid.get_version_num(), 7);
    assert_eq!(uuid_to_ms(&uuid), Ok(dt.timestamp_millis()));

    let (uuid2, ts2) = util_uuid::uuid_and_ts();
    assert_eq!(uuid2.get_version_num(), 7);
    // The two moments were taken moments apart.
    assert!(ts2.timestamp_millis() >= dt.timestamp_millis());
}
