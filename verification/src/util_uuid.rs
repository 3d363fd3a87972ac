//! Calendar time of version-7 identifiers.
//!
//! A thin façade over [`crate::util`]: the identifier's embedded moment as
//! a calendar value, with this module's own error taxonomy.

use vstd::prelude::*;

verus! {

use crate::util::DateTime;
use crate::util::Timestamp;
use crate::util::spec_ts_datetime_result;
use crate::util::ts_to_datetime;
use crate::util::uuid_timestamp_parts;
use crate::util::uuid_now_v7;
use crate::util::utc_now;

/// Why an identifier could not be turned into calendar time.
#[derive(Clone, Copy, Debug, PartialEq, Eq, Structural)]
pub enum DateTimeError {
    /// Out-of-range number of seconds and/or invalid nanosecond.
    OutOfRange,
    /// The second count does not fit a signed 64-bit integer.
    TryFromIntError,
    /// The UUID carries no timestamp: not version 1, 6 or 7.
    IncorrectUuidVersion,
}

/// [`crate::util`]'s error, under this module's taxonomy.
pub open spec fn spec_own_error(e: crate::util::DateTimeError) -> DateTimeError {
    match e {
        crate::util::DateTimeError::OutOfRange => DateTimeError::OutOfRange,
        crate::util::DateTimeError::TryFromIntError => DateTimeError::TryFromIntError,
        crate::util::DateTimeError::IncorrectUuidVersion => DateTimeError::IncorrectUuidVersion,
    }
}

/// The one outcome of converting a timestamp, under this module's
/// taxonomy: exactly [`spec_ts_datetime_result`], error for error.
pub open spec fn spec_uuid_ts_result(ts: Timestamp) -> Result<DateTime, DateTimeError> {
    match spec_ts_datetime_result(ts) {
        Ok(dt) => Ok(dt),
        Err(e) => Err(spec_own_error(e)),
    }
}

/// The one outcome of converting an extraction result: an identifier that
/// carries no timestamp yields `IncorrectUuidVersion`; one that does is
/// converted exactly as [`spec_uuid_ts_result`] says.
pub open spec fn spec_extracted_result(ts: Option<Timestamp>) -> Result<DateTime, DateTimeError> {
    match ts {
        None => Err(DateTimeError::IncorrectUuidVersion),
        Some(t) => spec_uuid_ts_result(t),
    }
}

/// Turns a UUID-reported timestamp into a calendar moment, with this
/// module's error taxonomy; the outcome is exactly that of
/// [`crate::util::ts_to_datetime`].
pub fn uuid_ts_to_datetime(ts: Timestamp) -> (r: Result<DateTime, DateTimeError>)
    ensures
        r == spec_uuid_ts_result(ts),
        r matches Ok(dt) ==> dt.wf(),
{
    match ts_to_datetime(ts) {
        Ok(dt) => Ok(dt),
        Err(crate::util::DateTimeError::OutOfRange) => Err(DateTimeError::OutOfRange),
        Err(crate::util::DateTimeError::TryFromIntError) => Err(DateTimeError::TryFromIntError),
        Err(crate::util::DateTimeError::IncorrectUuidVersion) => Err(
            DateTimeError::IncorrectUuidVersion,
        ),
    }
}

/// The whole decision taken on an extracted timestamp: an identifier that
/// carries none yields `IncorrectUuidVersion`, and one that does is
/// converted exactly as [`uuid_ts_to_datetime`] converts it.
pub fn extracted_ts_to_datetime(ts: Option<Timestamp>) -> (r: Result<DateTime, DateTimeError>)
    ensures
        r == spec_extracted_result(ts),
        r matches Ok(dt) ==> dt.wf(),
{
    match ts {
        None => Err(DateTimeError::IncorrectUuidVersion),
        Some(t) => uuid_ts_to_datetime(t),
    }
}

/// The creation moment embedded in a UUID, as a calendar moment: the
/// decision of [`extracted_ts_to_datetime`], taken on the extracted
/// timestamp. The identifier itself is opaque, so the contract fixes only
/// what holds of every extraction; the decision's own contract is exact.
pub fn uuid_to_ts(uuid: &uuid::Uuid) -> (r: Result<DateTime, DateTimeError>)
    ensures
        r matches Ok(dt) ==> dt.wf(),
{
    extracted_ts_to_datetime(uuid_timestamp_parts(uuid))
}

/// A fresh version-7 UUID together with its creation moment; when the
/// embedded moment cannot be read back, the system clock stands in.
pub fn uuid_and_ts() -> (r: (uuid::Uuid, DateTime))
    ensures
        r.1.wf(),
{
    let uuid = uuid_now_v7();
    let ts = match uuid_to_ts(&uuid) {
        Ok(dt) => dt,
        Err(_) => utc_now(),
    };
    (uuid, ts)
}

} // verus!
