//! The start and end instants of a simulation, as a simulation file writes them:
//! the current time, an RFC 3339 timestamp, an offset from now, or never.

use vstd::prelude::*;
use crate::clock::{
    instant_in_range, instant_of, instant_value, now_nanos, parse_rfc3339, rfc3339_timestamp,
    shift_timestamp, shifted, NANOS_PER_SECOND,
};
use crate::offset::{offset_outcome, OffsetError, TimeUnitParser};

verus! {

/// How a simulation file writes an instant.
#[derive(Debug, Clone, PartialEq, Eq)]
pub enum DT {
    /// The moment the file is read.
    Now(),
    /// An RFC 3339 timestamp.
    Utc(String),
    /// An offset from the moment the file is read, such as `-1d` (see `offset`).
    Offset(String),
    /// No end at all: a hundred years from now.
    Never(),
}

/// Why an instant of a simulation file was refused.
#[derive(Debug, Clone, PartialEq, Eq)]
pub enum DtError {
    /// The timestamp is not RFC 3339.
    InvalidUtc,
    /// The offset text was refused by the offset parser.
    InvalidOffset(OffsetError),
    /// The instant falls outside the instants that chrono can hold (or the clock reads one),
    /// or the offset is longer than a `TimeDelta` can be.
    OutOfRange,
    /// `Never` was written for a field that must have a finite value.
    NeverNotAllowed(String),
}

/// Nanoseconds in 36,500 days (a hundred years of 365 days): how far ahead `Never` lies.
pub const NEVER_HORIZON_NANOS: i128 = 3153600000000000000i128;

/// The largest number of seconds that a `TimeDelta` can hold (`i64::MAX / 1000`).
pub const MAX_DELTA_SECONDS: i64 = 9223372036854775i64;

/// The instant that an RFC 3339 text stands for, or `InvalidUtc` where chrono refuses it.
/// A leap second (`23:59:60.5Z`) is counted on from the second before it, so it stands for
/// the same instant as the half second after midnight: an instant here is one count of
/// nanoseconds, which has no place for a 61st second.
pub open spec fn utc_outcome(text: Seq<char>) -> Result<i128, DtError> {
    match rfc3339_timestamp(text) {
        None => Err(DtError::InvalidUtc),
        Some((secs, nanos)) => Ok(instant_value(secs as int, nanos as int) as i128),
    }
}

/// The signed nanoseconds that an offset text moves the clock reading by: `InvalidOffset`
/// where the offset parser refuses the text, `OutOfRange` where the offset is longer than a
/// `TimeDelta` can be.
pub open spec fn offset_delta(text: Seq<char>) -> Result<int, DtError> {
    match offset_outcome(text) {
        Err(e) => Err(DtError::InvalidOffset(e)),
        Ok(off) => if off.seconds > MAX_DELTA_SECONDS {
            Err(DtError::OutOfRange)
        } else {
            let span = off.seconds * NANOS_PER_SECOND;
            Ok(if off.negative { -span } else { span })
        },
    }
}

/// What an instant written as `holder` resolves to when the clock reads `now`.
/// (The error of a forbidden `Never` is checked by `dt_result_matches`, with its field.)
pub open spec fn dt_outcome(holder: DT, forbid_never: bool, now: i128) -> Result<i128, DtError> {
    match holder {
        DT::Now() => Ok(now),
        DT::Utc(text) => utc_outcome(text@),
        DT::Offset(text) => match offset_delta(text@) {
            Err(e) => Err(e),
            Ok(delta) => match shifted(now as int, delta) {
                Some(t) => Ok(t),
                None => Err(DtError::OutOfRange),
            },
        },
        DT::Never() => if forbid_never {
            Err(DtError::NeverNotAllowed(arbitrary()))
        } else {
            match shifted(now as int, NEVER_HORIZON_NANOS as int) {
                Some(t) => Ok(t),
                None => Err(DtError::OutOfRange),
            }
        },
    }
}

/// Whether a result agrees with `dt_outcome`, where the error of a forbidden `Never`
/// carries the name of the field.
pub open spec fn dt_result_matches(
    r: Result<i128, DtError>,
    holder: DT,
    forbid_never: bool,
    field: Seq<char>,
    now: i128,
) -> bool {
    match dt_outcome(holder, forbid_never, now) {
        Err(DtError::NeverNotAllowed(_)) => r matches Err(DtError::NeverNotAllowed(name))
            && name@ == field,
        outcome => r == outcome,
    }
}

/// Whether resolving `holder` needs the clock: `Now`, an offset that the parser accepts and a
/// `TimeDelta` can hold, and an allowed `Never` do; a timestamp, a refused offset and a
/// forbidden `Never` do not.
pub open spec fn reads_clock(holder: DT, forbid_never: bool) -> bool {
    match holder {
        DT::Now() => true,
        DT::Utc(_) => false,
        DT::Offset(text) => offset_delta(text@) is Ok,
        DT::Never() => !forbid_never,
    }
}

/// The nanoseconds that an offset text moves the clock reading by, or its error.
fn offset_delta_of(text: &str) -> (r: Result<i128, DtError>)
    ensures
        match offset_delta(text@) {
            Ok(d) => r == Ok::<i128, DtError>(d as i128),
            Err(e) => r == Err::<i128, DtError>(e),
        },
{
    match TimeUnitParser::parse(text) {
        Err(e) => Err(DtError::InvalidOffset(e)),
        Ok(off) => {
            if off.seconds > MAX_DELTA_SECONDS {
                Err(DtError::OutOfRange)
            } else {
                let span: i128 = (off.seconds as i128) * NANOS_PER_SECOND;
                if off.negative {
                    Ok(0 - span)
                } else {
                    Ok(span)
                }
            }
        },
    }
}

/// The instant of an RFC 3339 text.
fn utc_instant(text: &str) -> (r: Result<i128, DtError>)
    ensures
        r == utc_outcome(text@),
{
    match parse_rfc3339(text) {
        None => Err(DtError::InvalidUtc),
        Some((secs, nanos)) => Ok(instant_of(secs, nanos)),
    }
}

/// Resolves an instant of a simulation file against the clock reading `now`.
pub fn match_dt_at(holder: DT, forbid_never: bool, field: &str, now: i128) -> (r: Result<
    i128,
    DtError,
>)
    ensures
        dt_result_matches(r, holder, forbid_never, field@, now),
{
    match holder {
        DT::Now() => Ok(now),
        DT::Utc(text) => utc_instant(text.as_str()),
        DT::Offset(text) => match offset_delta_of(text.as_str()) {
            Err(e) => Err(e),
            Ok(delta) => match shift_timestamp(now, delta) {
                Some(t) => Ok(t),
                None => Err(DtError::OutOfRange),
            },
        },
        DT::Never() => {
            if forbid_never {
                Err(DtError::NeverNotAllowed(field.to_string()))
            } else {
                match shift_timestamp(now, NEVER_HORIZON_NANOS) {
                    Some(t) => Ok(t),
                    None => Err(DtError::OutOfRange),
                }
            }
        },
    }
}

/// Resolves an instant of a simulation file. A timestamp, an offset that is refused and a
/// forbidden `Never` are resolved without the clock, and so for every clock reading alike:
/// an offset is parsed before the clock is read. The others read the clock: they
/// give `OutOfRange` where the clock reads an instant that chrono cannot hold, and otherwise
/// what `match_dt_at` gives for the instant that the clock read.
pub fn match_dt(holder: DT, forbid_never: bool, field: &str) -> (r: Result<i128, DtError>)
    ensures
        !reads_clock(holder, forbid_never) ==> forall|now: i128|
            #[trigger] dt_result_matches(r, holder, forbid_never, field@, now),
        reads_clock(holder, forbid_never) ==> (r == Err::<i128, DtError>(DtError::OutOfRange)
            || exists|now: i128|
            instant_in_range(now as int) && #[trigger] dt_result_matches(
                r,
                holder,
                forbid_never,
                field@,
                now,
            )),
{
    match holder {
        DT::Utc(text) => utc_instant(text.as_str()),
        DT::Never() if forbid_never => Err(DtError::NeverNotAllowed(field.to_string())),
        DT::Offset(text) => match offset_delta_of(text.as_str()) {
            Err(e) => Err(e),
            Ok(delta) => match now_nanos() {
                Some(now) => {
                    let r = match shift_timestamp(now, delta) {
                        Some(t) => Ok(t),
                        None => Err(DtError::OutOfRange),
                    };
                    assert(dt_result_matches(r, DT::Offset(text), forbid_never, field@, now));
                    r
                },
                None => Err(DtError::OutOfRange),
            },
        },
        other => match now_nanos() {
            Some(now) => match_dt_at(other, forbid_never, field, now),
            None => Err(DtError::OutOfRange),
        },
    }
}

/// The start of a simulation: `Never` is refused there.
pub fn to_date_time_start_at(holder: DT) -> (r: Result<i128, DtError>)
    ensures
        !reads_clock(holder, true) ==> forall|now: i128|
            #[trigger] dt_result_matches(r, holder, true, "start_at"@, now),
        reads_clock(holder, true) ==> (r == Err::<i128, DtError>(DtError::OutOfRange)
            || exists|now: i128|
            instant_in_range(now as int) && #[trigger] dt_result_matches(
                r,
                holder,
                true,
                "start_at"@,
                now,
            )),
{
    match_dt(holder, true, "start_at")
}

/// The end of a simulation: `Never` means a hundred years from now.
pub fn to_date_time_end_at(holder: DT) -> (r: Result<i128, DtError>)
    ensures
        !reads_clock(holder, false) ==> forall|now: i128|
            #[trigger] dt_result_matches(r, holder, false, "end_at"@, now),
        reads_clock(holder, false) ==> (r == Err::<i128, DtError>(DtError::OutOfRange)
            || exists|now: i128|
            instant_in_range(now as int) && #[trigger] dt_result_matches(
                r,
                holder,
                false,
                "end_at"@,
                now,
            )),
{
    match_dt(holder, false, "end_at")
}

/// An offset moves the clock reading by its seconds: back for a leading minus sign, forward
/// otherwise. So a negative offset resolves to an instant before the reading and a positive
/// one to an instant after it, whatever the reading.
pub proof fn law_offset_moves_the_reading(text: String, forbid_never: bool, now: i128)
    requires
        offset_outcome(text@) is Ok,
        offset_outcome(text@)->Ok_0.seconds <= MAX_DELTA_SECONDS,
        instant_in_range(
            if offset_outcome(text@)->Ok_0.negative {
                now - offset_outcome(text@)->Ok_0.seconds * 1_000_000_000
            } else {
                now + offset_outcome(text@)->Ok_0.seconds * 1_000_000_000
            },
        ),
    ensures
        ({
            let off = offset_outcome(text@)->Ok_0;
            let moved = off.seconds * 1_000_000_000;
            &&& off.negative ==> dt_outcome(DT::Offset(text), forbid_never, now)
                == Ok::<i128, DtError>((now - moved) as i128)
            &&& !off.negative ==> dt_outcome(DT::Offset(text), forbid_never, now)
                == Ok::<i128, DtError>((now + moved) as i128)
            &&& off.negative && off.seconds > 0 ==> dt_outcome(
                DT::Offset(text),
                forbid_never,
                now,
            )->Ok_0 < now
            &&& !off.negative && off.seconds > 0 ==> dt_outcome(
                DT::Offset(text),
                forbid_never,
                now,
            )->Ok_0 > now
        }),
{
}

/// `Never` is refused as the start of a simulation, whatever the clock reads, and the
/// refusal names the field.
pub proof fn law_start_is_never_never(now: i128)
    ensures
        dt_outcome(DT::Never(), true, now) is Err,
        forall|r: Result<i128, DtError>|
            dt_result_matches(r, DT::Never(), true, "start_at"@, now) ==> (r matches Err(
                DtError::NeverNotAllowed(name),
            ) && name@ == "start_at"@),
{
}

/// `Never` as an end lies 36,500 days after the clock reading, wherever chrono can hold that
/// instant.
pub proof fn law_never_is_a_century_ahead(now: i128)
    requires
        instant_in_range(now + NEVER_HORIZON_NANOS),
    ensures
        dt_outcome(DT::Never(), false, now) == Ok::<i128, DtError>(
            (now + NEVER_HORIZON_NANOS) as i128,
        ),
{
}

} // verus!
