use iot_simulator::offset::{OffsetError, TimeOffset, TimeUnitParser};

fn ok(negative: bool, seconds: i64) -> Result<TimeOffset, OffsetError> {
    Ok(TimeOffset { negative, seconds })
}

#[test]
fn offset_components_add_up() {
    assert_eq!(TimeUnitParser::parse("1h30m"), ok(false, 5400));
    assert_eq!(TimeUnitParser::parse("2s3s"), ok(false, 5));
    assert_eq!(TimeUnitParser::parse("1d1h1m1s"), ok(false, 86400 + 3600 + 61));
}

#[test]
fn offset_units() {
    assert_eq!(TimeUnitParser::parse("1y"), ok(false, 365 * 24 * 3600));
    assert_eq!(TimeUnitParser::parse("1M"), ok(false, 30 * 24 * 3600));
    assert_eq!(TimeUnitParser::parse("1d"), ok(false, 86400));
    assert_eq!(TimeUnitParser::parse("1h"), ok(false, 3600));
    assert_eq!(TimeUnitParser::parse("1m"), ok(false, 60));
    assert_eq!(TimeUnitParser::parse("1s"), ok(false, 1));
    assert_eq!(TimeUnitParser::parse("007s"), ok(false, 7));
}

#[test]
fn offset_minus_points_into_the_past() {
    assert_eq!(TimeUnitParser::parse("-1d"), ok(true, 86400));
    assert_eq!(TimeUnitParser::parse("-0s"), ok(true, 0));
}

#[test]
fn offset_syntax_errors() {
    for text in ["", "-", "5", "h", "1x", "1h2", "--1s", "1 h", "+1s", "1h-1s", "1.5h"] {
        assert_eq!(TimeUnitParser::parse(text), Err(OffsetError::Syntax), "{}", text);
    }
}

#[test]
fn offset_overflow() {
    assert_eq!(TimeUnitParser::parse("9223372036854775807s"), ok(false, i64::MAX));
    assert_eq!(TimeUnitParser::parse("9223372036854775808s"), Err(OffsetError::Overflow));
    assert_eq!(TimeUnitParser::parse("300000000000000000y"), Err(OffsetError::Overflow));
    assert_eq!(TimeUnitParser::parse("9223372036854775807s1s"), Err(OffsetError::Overflow));
    // a syntax error is reported before an overflow
    assert_eq!(TimeUnitParser::parse("99999999999999999999s1x"), Err(OffsetError::Syntax));
}
