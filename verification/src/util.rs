//! Timestamps carried by UUIDs, and their conversion to calendar time.
//!
//! Identifiers are version-7 UUIDs, which embed their creation moment. The
//! moment is modelled as plain values — whole seconds since the Unix epoch
//! and a subsecond in nanoseconds — and the conversions to calendar time
//! and to milliseconds are verified arithmetic over that model. Only the
//! extraction of the moment from a UUID, the creation of a fresh UUID, and
//! the reading of the system clock are entrusted to the `uuid` and
//! `chrono` crates.

use vstd::prelude::*;

verus! {

/// A moment as the `uuid` crate reports it: whole seconds since the Unix
/// epoch and a subsecond in nanoseconds (always below one second).
#[derive(Clone, Copy, Debug, PartialEq, Eq, Structural)]
pub struct Timestamp {
    pub secs: u64,
    pub nsecs: u32,
}

/// A UTC calendar moment: whole seconds since the Unix epoch and a
/// subsecond in nanoseconds, where a nanosecond count of one second or
/// more (below two) represents a leap second.
#[derive(Clone, Copy, Debug, PartialEq, Eq, Structural)]
pub struct DateTime {
    pub secs: i64,
    pub nsecs: u32,
}

/// The earliest second the calendar can hold (year -262143).
pub const DATETIME_SECS_MIN: i64 = -8_334_601_228_800;

/// The latest second the calendar can hold (year 262142).
pub const DATETIME_SECS_MAX: i64 = 8_210_266_876_799;

impl DateTime {
    /// The moment lies within the representable calendar and its
    /// subsecond is below two seconds.
    pub open spec fn wf(self) -> bool {
        &&& DATETIME_SECS_MIN <= self.secs <= DATETIME_SECS_MAX
        &&& self.nsecs < 2_000_000_000
    }

    /// The moment in non-leap milliseconds since the Unix epoch.
    pub open spec fn spec_timestamp_millis(self) -> int {
        self.secs * 1000 + self.nsecs / 1_000_000
    }

    /// The moment in non-leap milliseconds since the Unix epoch.
    pub fn timestamp_millis(&self) -> (ms: i64)
        requires
            self.wf(),
        ensures
            ms == self.spec_timestamp_millis(),
    {
        self.secs * 1000 + (self.nsecs / 1_000_000) as i64
    }
}

/// Why a timestamp could not be turned into calendar time.
#[derive(Clone, Copy, Debug, PartialEq, Eq, Structural)]
pub enum DateTimeError {
    /// Out-of-range number of seconds and/or invalid nanosecond.
    OutOfRange,
    /// The second count does not fit a signed 64-bit integer.
    TryFromIntError,
    /// The UUID carries no timestamp: not version 1, 6 or 7.
    IncorrectUuidVersion,
}

/// Whether the timestamp's second count fits a signed 64-bit integer.
pub open spec fn spec_ts_fits_i64(ts: Timestamp) -> bool {
    ts.secs <= i64::MAX as u64
}

/// Whether the timestamp lies within the representable calendar.
pub open spec fn spec_ts_in_range(ts: Timestamp) -> bool {
    ts.secs <= DATETIME_SECS_MAX as u64 && ts.nsecs < 2_000_000_000
}

/// The calendar moment a representable timestamp denotes.
pub open spec fn spec_ts_datetime(ts: Timestamp) -> DateTime {
    DateTime { secs: ts.secs as i64, nsecs: ts.nsecs }
}

/// The one outcome of converting a timestamp to a calendar moment:
/// `TryFromIntError` when the second count overflows a signed 64-bit
/// integer, `OutOfRange` when the moment lies outside the representable
/// calendar, and the moment itself otherwise.
pub open spec fn spec_ts_datetime_result(ts: Timestamp) -> Result<DateTime, DateTimeError> {
    if !spec_ts_fits_i64(ts) {
        Err(DateTimeError::TryFromIntError)
    } else if !spec_ts_in_range(ts) {
        Err(DateTimeError::OutOfRange)
    } else {
        Ok(spec_ts_datetime(ts))
    }
}

/// The one outcome of converting a timestamp to milliseconds: the errors
/// of [`spec_ts_datetime_result`], or the moment's millisecond count.
pub open spec fn spec_ts_ms_result(ts: Timestamp) -> Result<i64, DateTimeError> {
    match spec_ts_datetime_result(ts) {
        Ok(dt) => Ok(dt.spec_timestamp_millis() as i64),
        Err(e) => Err(e),
    }
}

/// The one outcome of converting an extraction result: an identifier that
/// carries no timestamp yields `IncorrectUuidVersion`; one that does is
/// converted exactly as [`spec_ts_datetime_result`] says.
pub open spec fn spec_extracted_datetime_result(ts: Option<Timestamp>) -> Result<
    DateTime,
    DateTimeError,
> {
    match ts {
        None => Err(DateTimeError::IncorrectUuidVersion),
        Some(t) => spec_ts_datetime_result(t),
    }
}

/// As [`spec_extracted_datetime_result`], in milliseconds.
pub open spec fn spec_extracted_ms_result(ts: Option<Timestamp>) -> Result<i64, DateTimeError> {
    match ts {
        None => Err(DateTimeError::IncorrectUuidVersion),
        Some(t) => spec_ts_ms_result(t),
    }
}

/// Turns a UUID-reported timestamp into a calendar moment. Fails with
/// `TryFromIntError` when the second count overflows a signed 64-bit
/// integer, and with `OutOfRange` when the moment lies outside the
/// representable calendar.
pub fn ts_to_datetime(ts: Timestamp) -> (r: Result<DateTime, DateTimeError>)
    ensures
        r == spec_ts_datetime_result(ts),
        r matches Ok(dt) ==> dt.wf(),
{
    if ts.secs > i64::MAX as u64 {
        return Err(DateTimeError::TryFromIntError);
    }
    let secs = ts.secs as i64;
    if secs > DATETIME_SECS_MAX || ts.nsecs >= 2_000_000_000 {
        return Err(DateTimeError::OutOfRange);
    }
    Ok(DateTime { secs, nsecs: ts.nsecs })
}

/// Turns a UUID-reported timestamp into non-leap milliseconds since the
/// Unix epoch; fails exactly as [`ts_to_datetime`] does.
pub fn ts_to_ms(ts: Timestamp) -> (r: Result<i64, DateTimeError>)
    ensures
        r == spec_ts_ms_result(ts),
{
    let t = match ts_to_datetime(ts) {
        Ok(t) => t,
        Err(e) => {
            return Err(e);
        },
    };
    Ok(t.timestamp_millis())
}

/// The whole decision taken on an extracted timestamp: an identifier that
/// carries none yields `IncorrectUuidVersion`, and one that does is
/// converted exactly as [`ts_to_datetime`] converts it.
pub fn uuid_timestamp_to_datetime(ts: Option<Timestamp>) -> (r: Result<DateTime, DateTimeError>)
    ensures
        r == spec_extracted_datetime_result(ts),
        r matches Ok(dt) ==> dt.wf(),
{
    match ts {
        None => Err(DateTimeError::IncorrectUuidVersion),
        Some(t) => ts_to_datetime(t),
    }
}

/// As [`uuid_timestamp_to_datetime`], in milliseconds.
pub fn uuid_timestamp_to_ms(ts: Option<Timestamp>) -> (r: Result<i64, DateTimeError>)
    ensures
        r == spec_extracted_ms_result(ts),
{
    match ts {
        None => Err(DateTimeError::IncorrectUuidVersion),
        Some(t) => ts_to_ms(t),
    }
}

// ---------------------------------------------------------------------------
// Trusted items over the uuid and chrono crates
// ---------------------------------------------------------------------------

#[verifier::external_type_specification]
#[verifier::external_body]
pub struct ExUuid(uuid::Uuid);

/// Relies on `uuid::Uuid::get_timestamp` and `uuid::Timestamp::to_unix`:
/// a UUID of version 1, 6 or 7 carries its creation moment, reported as
/// whole seconds and a subsecond strictly below one second; other versions
/// carry none.
#[verifier::external_body]
pub(crate) fn uuid_timestamp_parts(u: &uuid::Uuid) -> (r: Option<Timestamp>)
    ensures
        r matches Some(t) ==> t.nsecs < 1_000_000_000,
{
    match u.get_timestamp() {
        Some(ts) => {
            let (secs, nsecs) = ts.to_unix();
            Some(Timestamp { secs, nsecs })
        },
        None => None,
    }
}

/// Relies on `uuid::Uuid::now_v7`: a fresh version-7 UUID stamped with the
/// moment of its creation. Depends on the clock and on randomness, so
/// nothing is promised of its value.
#[verifier::external_body]
pub(crate) fn uuid_now_v7() -> (u: uuid::Uuid) {
    uuid::Uuid::now_v7()
}

/// Relies on `chrono::Utc::now`: the system clock as a calendar moment,
/// which chrono keeps within its representable calendar.
#[verifier::external_body]
pub(crate) fn utc_now() -> (dt: DateTime)
    ensures
        dt.wf(),
{
    let now = chrono::Utc::now();
    DateTime { secs: now.timestamp(), nsecs: now.timestamp_subsec_nanos() }
}

// ---------------------------------------------------------------------------
// Calendar time of a UUID
// ---------------------------------------------------------------------------

/// The creation moment embedded in a UUID, as a calendar moment: the
/// decision of [`uuid_timestamp_to_datetime`], taken on the extracted
/// timestamp. The identifier itself is opaque, so the contract fixes only
/// what holds of every extraction; the decision's own contract is exact.
pub fn uuid_to_datetime(uuid: &uuid::Uuid) -> (r: Result<DateTime, DateTimeError>)
    ensures
        r matches Ok(dt) ==> dt.wf(),
{
    uuid_timestamp_to_datetime(uuid_timestamp_parts(uuid))
}

/// The creation moment embedded in a UUID, in non-leap milliseconds since
/// the Unix epoch: the decision of [`uuid_timestamp_to_ms`], taken on the
/// extracted timestamp.
pub fn uuid_to_ms(uuid: &uuid::Uuid) -> (r: Result<i64, DateTimeError>)
    ensures
        r matches Ok(ms) ==> DATETIME_SECS_MIN * 1000 <= ms <= DATETIME_SECS_MAX * 1000 + 1999,
{
    uuid_timestamp_to_ms(uuid_timestamp_parts(uuid))
}

/// A fresh version-7 UUID together with its creation moment; when the
/// embedded moment cannot be read back, the system clock stands in.
pub fn uuid_and_datetime() -> (r: (uuid::Uuid, DateTime))
    ensures
        r.1.wf(),
{
    let uuid = uuid_now_v7();
    let now = match uuid_to_datetime(&uuid) {
        Ok(dt) => dt,
        Err(_) => utc_now(),
    };
    (uuid, now)
}

} // verus!
