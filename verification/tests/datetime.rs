use iot_simulator::clock::{MAX_INSTANT_NANOS, MIN_INSTANT_NANOS};
use iot_simulator::datetime::{
    match_dt, match_dt_at, to_date_time_end_at, to_date_time_start_at, DtError, DT,
    NEVER_HORIZON_NANOS,
};
use iot_simulator::offset::OffsetError;

const NOW: i128 = 1_752_969_600_000_000_000;
const SECOND: i128 = 1_000_000_000;

fn chrono_nanos(t: chrono::DateTime<chrono::Utc>) -> i128 {
    (t.timestamp() as i128) * SECOND + (t.timestamp_subsec_nanos() as i128)
}

#[test]
fn the_instant_range_is_chronos() {
    assert_eq!(MIN_INSTANT_NANOS, chrono_nanos(chrono::DateTime::<chrono::Utc>::MIN_UTC));
    assert_eq!(MAX_INSTANT_NANOS, chrono_nanos(chrono::DateTime::<chrono::Utc>::MAX_UTC));
}

#[test]
fn now_is_the_clock_reading() {
    assert_eq!(match_dt_at(DT::Now(), true, "start_at", NOW), Ok(NOW));
}

#[test]
fn utc_timestamps_are_read() {
    assert_eq!(
        match_dt_at(DT::Utc("2025-07-20T00:00:00Z".to_string()), true, "start_at", 0),
        Ok(NOW)
    );
    assert_eq!(
        match_dt_at(DT::Utc("2025-07-20T02:00:00+02:00".to_string()), true, "start_at", 0),
        Ok(NOW)
    );
    assert_eq!(
        match_dt_at(DT::Utc("yesterday".to_string()), true, "start_at", 0),
        Err(DtError::InvalidUtc)
    );
    assert_eq!(
        match_dt_at(DT::Utc("3000-01-01T00:00:00Z".to_string()), true, "start_at", 0),
        Ok(32_503_680_000 * SECOND)
    );
    assert_eq!(
        match_dt_at(DT::Utc("1000-01-01T00:00:00.5Z".to_string()), true, "start_at", 0),
        Ok(-30_610_224_000 * SECOND + SECOND / 2)
    );
}

#[test]
fn refused_offsets_do_not_read_the_clock() {
    assert_eq!(
        match_dt(DT::Offset("1q".to_string()), true, "start_at"),
        Err(DtError::InvalidOffset(OffsetError::Syntax))
    );
    assert_eq!(
        to_date_time_end_at(DT::Offset("9223372036854776s".to_string())),
        Err(DtError::OutOfRange)
    );
}

#[test]
fn timestamps_do_not_read_the_clock() {
    assert_eq!(
        match_dt(DT::Utc("2025-07-20T00:00:00Z".to_string()), true, "start_at"),
        Ok(NOW)
    );
}

#[test]
fn offsets_move_the_clock_reading() {
    let hour = 3_600 * SECOND;
    assert_eq!(match_dt_at(DT::Offset("1h".to_string()), true, "start_at", NOW), Ok(NOW + hour));
    assert_eq!(match_dt_at(DT::Offset("-1h".to_string()), true, "start_at", NOW), Ok(NOW - hour));
    assert_eq!(
        match_dt_at(DT::Offset("1q".to_string()), true, "start_at", NOW),
        Err(DtError::InvalidOffset(OffsetError::Syntax))
    );
    assert_eq!(
        match_dt_at(DT::Offset("9223372036854775808s".to_string()), true, "start_at", NOW),
        Err(DtError::InvalidOffset(OffsetError::Overflow))
    );
    // longer than a TimeDelta
    assert_eq!(
        match_dt_at(DT::Offset("9223372036854776s".to_string()), true, "start_at", NOW),
        Err(DtError::OutOfRange)
    );
    // three centuries ahead
    assert_eq!(
        match_dt_at(DT::Offset("300y".to_string()), true, "start_at", NOW),
        Ok(NOW + 300 * 31_536_000 * SECOND)
    );
    // beyond the last instant
    assert_eq!(
        match_dt_at(DT::Offset("262200y".to_string()), true, "start_at", NOW),
        Err(DtError::OutOfRange)
    );
}

#[test]
fn never_is_refused_for_the_start() {
    assert_eq!(
        match_dt_at(DT::Never(), true, "start_at", NOW),
        Err(DtError::NeverNotAllowed("start_at".to_string()))
    );
    assert_eq!(
        to_date_time_start_at(DT::Never()),
        Err(DtError::NeverNotAllowed("start_at".to_string()))
    );
}

#[test]
fn never_is_a_century_ahead() {
    assert_eq!(match_dt_at(DT::Never(), false, "end_at", NOW), Ok(NOW + NEVER_HORIZON_NANOS));
    assert_eq!(NEVER_HORIZON_NANOS, 36_500 * 86_400 * SECOND);
    // read in the year 2200
    let late = 7_258_118_400 * SECOND;
    assert_eq!(match_dt_at(DT::Never(), false, "end_at", late), Ok(late + NEVER_HORIZON_NANOS));
    assert_eq!(
        match_dt_at(DT::Never(), false, "end_at", MAX_INSTANT_NANOS - 1),
        Err(DtError::OutOfRange)
    );
}

#[test]
fn the_clock_is_read_for_relative_instants() {
    let before = chrono_nanos(chrono::Utc::now());
    let start = match_dt(DT::Now(), true, "start_at").unwrap();
    let end = to_date_time_end_at(DT::Offset("1s".to_string())).unwrap();
    let after = chrono_nanos(chrono::Utc::now());
    assert!(before <= start && start <= after);
    assert!(before + SECOND <= end && end <= after + SECOND);
}
