//! Points in time, as nanoseconds since the Unix epoch in an `i128`, over the whole range of
//! chrono's UTC instants (from `DateTime::<Utc>::MIN_UTC`, early in the year -262143, to
//! `DateTime::<Utc>::MAX_UTC`, at the end of the year 262142);
//! reading the system clock, and the call into chrono that parses RFC 3339 timestamps.

use vstd::prelude::*;
use std::time::SystemTime;

verus! {

/// Nanoseconds in a second.
pub const NANOS_PER_SECOND: i128 = 1000000000i128;

/// The earliest instant that chrono's `DateTime<Utc>` holds (`DateTime::<Utc>::MIN_UTC`, early
/// in the year -262143), in nanoseconds since the epoch.
pub const MIN_INSTANT_NANOS: i128 = -8334601228800000000000i128;

/// The latest instant that chrono's `DateTime<Utc>` holds (`DateTime::<Utc>::MAX_UTC`,
/// 262142-12-31T23:59:59.999999999Z), in nanoseconds since the epoch.
pub const MAX_INSTANT_NANOS: i128 = 8210266876799999999999i128;

/// Whether `t` nanoseconds since the epoch is an instant that chrono can hold.
pub open spec fn instant_in_range(t: int) -> bool {
    MIN_INSTANT_NANOS <= t <= MAX_INSTANT_NANOS
}

/// The instant `delta` nanoseconds after `t`, where chrono can hold it.
pub open spec fn shifted(t: int, delta: int) -> Option<i128> {
    if instant_in_range(t + delta) {
        Some((t + delta) as i128)
    } else {
        None
    }
}

/// Moves an instant by a signed number of nanoseconds: `None` where the result leaves the
/// instants that chrono can hold.
pub fn shift_timestamp(t: i128, delta: i128) -> (r: Option<i128>)
    ensures
        r == shifted(t as int, delta as int),
{
    match t.checked_add(delta) {
        Some(sum) => {
            if MIN_INSTANT_NANOS <= sum && sum <= MAX_INSTANT_NANOS {
                Some(sum)
            } else {
                None
            }
        },
        None => None,
    }
}

/// The instant of a Unix timestamp: `secs` whole seconds and `nanos` nanoseconds after the epoch.
pub open spec fn instant_value(secs: int, nanos: int) -> int {
    secs * NANOS_PER_SECOND + nanos
}

/// The instant of a Unix timestamp given as whole seconds and nanoseconds.
pub fn instant_of(secs: i64, nanos: u32) -> (r: i128)
    ensures
        r == instant_value(secs as int, nanos as int),
{
    (secs as i128) * NANOS_PER_SECOND + (nanos as i128)
}

/// The instant that a reading of the system clock stands for: `secs` seconds and `nanos`
/// nanoseconds after the epoch where `after_epoch` holds, that long before it otherwise;
/// `None` where chrono cannot hold that instant.
pub open spec fn clock_instant(after_epoch: bool, secs: int, nanos: int) -> Option<i128> {
    let magnitude = instant_value(secs, nanos);
    shifted(0, if after_epoch { magnitude } else { -magnitude })
}

/// The instant of a reading of the system clock, as `clock_instant` says.
pub fn instant_of_reading(after_epoch: bool, secs: u64, nanos: u32) -> (r: Option<i128>)
    ensures
        r == clock_instant(after_epoch, secs as int, nanos as int),
{
    let magnitude: i128 = (secs as i128) * NANOS_PER_SECOND + (nanos as i128);
    let signed: i128 = if after_epoch { magnitude } else { 0 - magnitude };
    shift_timestamp(0, signed)
}

/// The system clock of std.
#[verifier::external_type_specification]
#[verifier::external_body]
pub struct ExSystemTime(SystemTime);

/// `SystemTime::now`: the current reading of the system clock. Nothing is stated of it.
#[verifier::external_body]
fn system_now() -> (r: SystemTime) {
    SystemTime::now()
}

/// `SystemTime::duration_since(UNIX_EPOCH)`: how far the reading `t` lies from the epoch, as
/// whether it lies after it (the `Ok` case), whole seconds and the nanoseconds of the last
/// second (`Duration::as_secs`, `Duration::subsec_nanos`, which is below one billion).
#[verifier::external_body]
fn since_epoch(t: &SystemTime) -> (r: (bool, u64, u32))
    ensures
        r.2 < 1000000000,
{
    match t.duration_since(SystemTime::UNIX_EPOCH) {
        Ok(d) => (true, d.as_secs(), d.subsec_nanos()),
        Err(e) => (false, e.duration().as_secs(), e.duration().subsec_nanos()),
    }
}

/// The current instant, read from the system clock: the instant of the reading as
/// `clock_instant` gives it (readings before the epoch included), `None` where chrono
/// cannot hold it. The reading depends on the clock, and nothing more is stated of it.
pub fn now_nanos() -> (r: Option<i128>)
    ensures
        r matches Some(t) ==> instant_in_range(t as int),
{
    let reading = system_now();
    let (after_epoch, secs, nanos) = since_epoch(&reading);
    instant_of_reading(after_epoch, secs, nanos)
}

/// What chrono's RFC 3339 parser reads from a text: `None` where it refuses the text;
/// otherwise the Unix timestamp of the instant, as whole seconds and the nanoseconds of the
/// last second (from one billion up on a leap second, as chrono counts it).
pub uninterp spec fn rfc3339_timestamp(text: Seq<char>) -> Option<(i64, u32)>;

/// `chrono::DateTime::parse_from_rfc3339`, with the parsed instant taken as its Unix timestamp
/// (`timestamp` and `timestamp_subsec_nanos`). The result is named: it is `rfc3339_timestamp`
/// of the text.
#[verifier::external_body]
pub fn parse_rfc3339(text: &str) -> (r: Option<(i64, u32)>)
    ensures
        r == rfc3339_timestamp(text@),
{
    match chrono::DateTime::parse_from_rfc3339(text) {
        Ok(parsed) => Some((parsed.timestamp(), parsed.timestamp_subsec_nanos())),
        Err(_) => None,
    }
}

} // verus!
