//! Reading the clock.

use vstd::prelude::*;
use crate::records::Timestamp;

verus! {

#[verifier::external_type_specification]
#[verifier::external_body]
pub struct ExSystemTime(std::time::SystemTime);

/// The system clock's current reading.
///
/// Trusted: `SystemTime::now`. Nothing is stated of the reading.
#[verifier::external_body]
pub(crate) fn system_now() -> (t: std::time::SystemTime) {
    std::time::SystemTime::now()
}

/// How long after the Unix epoch `t` is, or none when `t` is earlier.
///
/// Trusted: `SystemTime::duration_since` with `UNIX_EPOCH`. Nothing is
/// stated of the duration.
#[verifier::external_body]
pub(crate) fn duration_since_epoch(t: &std::time::SystemTime) -> (d: Option<std::time::Duration>) {
    t.duration_since(std::time::UNIX_EPOCH).ok()
}

/// The whole seconds of a duration.
///
/// Trusted: `Duration::as_secs`. Nothing is stated of the value.
#[verifier::external_body]
pub(crate) fn whole_secs(d: &std::time::Duration) -> (s: u64) {
    d.as_secs()
}

/// The nanoseconds of a duration past its whole seconds.
///
/// Trusted: `Duration::subsec_nanos`, which its documentation says is
/// always less than one billion.
#[verifier::external_body]
pub(crate) fn subsec_nanos(d: &std::time::Duration) -> (n: u32)
    ensures
        n < 1_000_000_000,
{
    d.subsec_nanos()
}

/// The first second chrono can represent (that of `DateTime::<Utc>::MIN_UTC`),
/// in seconds since the Unix epoch.
pub const CHRONO_MIN_SECS: i64 = -8334601228800;

/// The last second chrono can represent (that of `DateTime::<Utc>::MAX_UTC`,
/// December 31, 262142 CE, 23:59:59), in seconds since the Unix epoch.
pub const CHRONO_MAX_SECS: i64 = 8210266876799;

/// Whether chrono can represent the instant `secs` seconds and `nanos`
/// nanoseconds after the Unix epoch: the second lies within chrono's dates,
/// and the nanoseconds stay below one second, or below two in the last
/// second of a minute, which then stands for a leap second.
pub open spec fn chrono_can_represent(secs: i64, nanos: u32) -> bool {
    &&& CHRONO_MIN_SECS <= secs <= CHRONO_MAX_SECS
    &&& (nanos < 1_000_000_000 || (nanos < 2_000_000_000 && secs % 60 == 59))
}

/// The instant `secs` seconds and `nanos` nanoseconds after the Unix epoch,
/// as chrono holds it, when chrono can represent it.
///
/// Trusted: `DateTime::<Utc>::from_timestamp`, read back with `timestamp`
/// and `timestamp_subsec_nanos`. It succeeds exactly when the day falls
/// within chrono's dates and the nanoseconds are valid for that second
/// (`chrono_can_represent`); as its documentation says, the value
/// round-trips through those two readers.
#[verifier::external_body]
pub(crate) fn utc_from_timestamp(secs: i64, nanos: u32) -> (r: Option<Timestamp>)
    ensures
        r is Some <==> chrono_can_represent(secs, nanos),
        r matches Some(t) ==> t == (Timestamp { secs, nanos }),
{
    chrono::DateTime::<chrono::Utc>::from_timestamp(secs, nanos).map(
        |d| Timestamp { secs: d.timestamp(), nanos: d.timestamp_subsec_nanos() },
    )
}

/// Why the current time could not be read.
#[derive(Debug, Clone, Copy, PartialEq, Eq, Structural)]
pub enum ClockError {
    /// The system clock reads earlier than the Unix epoch.
    BeforeEpoch,
    /// The system clock reads later than chrono can represent.
    OutOfRange,
}

impl ClockError {
    /// The message with which reading the time panics for this reason.
    pub fn panic_message(&self) -> (m: String)
        ensures
            *self == ClockError::BeforeEpoch ==> m@ == "system time before Unix epoch"@,
            *self == ClockError::OutOfRange ==> m@ == "called `Option::unwrap()` on a `None` value"@,
    {
        match self {
            ClockError::BeforeEpoch => "system time before Unix epoch".to_owned(),
            ClockError::OutOfRange => "called `Option::unwrap()` on a `None` value".to_owned(),
        }
    }
}

/// The time `whole` seconds and `nanos` nanoseconds after the Unix epoch,
/// the seconds cast to `i64` as `Utc::now` casts them, when chrono can
/// represent it.
pub open spec fn time_from_parts(whole: u64, nanos: u32) -> Result<Timestamp, ClockError> {
    let secs = whole as i64;
    if chrono_can_represent(secs, nanos) {
        Ok(Timestamp { secs, nanos })
    } else {
        Err(ClockError::OutOfRange)
    }
}

/// Turns the parts of a distance from the Unix epoch into a time, through
/// chrono: the whole seconds are cast to `i64` (wrapping above `i64::MAX`,
/// as `Utc::now` does), and a time chrono cannot represent is an error.
pub fn timestamp_from_parts(whole: u64, nanos: u32) -> (r: Result<Timestamp, ClockError>)
    ensures
        r == time_from_parts(whole, nanos),
{
    let secs: i64 = #[verifier::truncate] (whole as i64);
    match utc_from_timestamp(secs, nanos) {
        Some(t) => Ok(t),
        None => Err(ClockError::OutOfRange),
    }
}

/// The current time, read as `chrono::Utc::now` reads it: the system
/// clock's distance from the Unix epoch, as whole seconds and nanoseconds,
/// made a time by `timestamp_from_parts`. Where `Utc::now` would panic,
/// the reason is returned: the clock reads before the epoch, or later than
/// chrono can represent.
pub fn utc_now() -> (r: Result<Timestamp, ClockError>)
    ensures
        r == Err::<Timestamp, ClockError>(ClockError::BeforeEpoch) || exists|whole: u64, nanos: u32|
            nanos < 1_000_000_000 && r == #[trigger] time_from_parts(whole, nanos),
        r matches Ok(t) ==> t.nanos < 1_000_000_000 && chrono_can_represent(t.secs, t.nanos),
{
    let now = system_now();
    match duration_since_epoch(&now) {
        None => Err(ClockError::BeforeEpoch),
        Some(d) => {
            let whole = whole_secs(&d);
            let nanos = subsec_nanos(&d);
            let r = timestamp_from_parts(whole, nanos);
            assert(r == time_from_parts(whole, nanos));
            r
        },
    }
}

} // verus!
