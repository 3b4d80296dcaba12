use hc_homie5::{
    parse_duration_millis, parse_i64, parse_integer_payload, parse_integer_range,
    ConditionOperator, IntegerRange,
};

// Decimal integers: the full 64-bit range, signs, and the rejections.
#[test]
fn test_parse_i64() {
    assert_eq!(parse_i64("0"), Some(0));
    assert_eq!(parse_i64("+42"), Some(42));
    assert_eq!(parse_i64("-42"), Some(-42));
    assert_eq!(parse_i64("9223372036854775807"), Some(i64::MAX));
    assert_eq!(parse_i64("-9223372036854775808"), Some(i64::MIN));
    assert_eq!(parse_i64("9223372036854775808"), None);
    assert_eq!(parse_i64("-9223372036854775809"), None);
    assert_eq!(parse_i64(""), None);
    assert_eq!(parse_i64("-"), None);
    assert_eq!(parse_i64("12a"), None);
    assert_eq!(parse_i64(" 1"), None);
    assert_eq!(parse_i64("99999999999999999999999999"), None);
}

// Range formats: the separator-split fields and the well-formedness rules.
#[test]
fn test_parse_integer_range() {
    assert_eq!(
        parse_integer_range("1:20"),
        Some(IntegerRange { min: Some(1), max: Some(20), step: None })
    );
    assert_eq!(
        parse_integer_range("0:20:5"),
        Some(IntegerRange { min: Some(0), max: Some(20), step: Some(5) })
    );
    assert_eq!(
        parse_integer_range(":20"),
        Some(IntegerRange { min: None, max: Some(20), step: None })
    );
    assert_eq!(
        parse_integer_range("5:"),
        Some(IntegerRange { min: Some(5), max: None, step: None })
    );
    assert_eq!(parse_integer_range("20:1"), None);
    assert_eq!(parse_integer_range("0:20:0"), None);
    assert_eq!(parse_integer_range("0:20:25"), None);
    assert_eq!(parse_integer_range("1:2:3:4"), None);
    assert_eq!(parse_integer_range("a:b"), None);
}

// Integer payloads validate against the declared range, snapping to the
// step with halves rounding up.
#[test]
fn test_parse_integer_payload() {
    assert_eq!(parse_integer_payload("15", "1:20"), Some(15));
    assert_eq!(parse_integer_payload("21", "1:20"), None);
    assert_eq!(parse_integer_payload("7", "0:20:5"), Some(5));
    assert_eq!(parse_integer_payload("8", "0:20:5"), Some(10));
    assert_eq!(parse_integer_payload("3", ""), Some(3));
    assert_eq!(parse_integer_payload("abc", "1:20"), None);
    // An extreme payload against a stepped range is dropped, not a crash.
    assert_eq!(parse_integer_payload("-9223372036854775808", "0:20:5"), None);
}

// Durations of the `PT..H..M..S` form, in milliseconds.
#[test]
fn test_parse_duration() {
    assert_eq!(parse_duration_millis("PT12H5M46S"), Some(43_546_000));
    assert_eq!(parse_duration_millis("PT1M"), Some(60_000));
    assert_eq!(parse_duration_millis("PT90S"), Some(90_000));
    assert_eq!(parse_duration_millis("PT"), None);
    assert_eq!(parse_duration_millis("PT5"), None);
    assert_eq!(parse_duration_millis("PT5M3H"), None);
    assert_eq!(parse_duration_millis("12H"), None);
    // Payloads beyond the representable range are dropped, not a crash.
    assert_eq!(parse_duration_millis("PT99999999999999999999H"), None);
    assert_eq!(parse_duration_millis("PT9300000000000000S"), None);
}

// The operator names of the protocol round-trip through their text.
#[test]
fn test_operator_text() {
    assert_eq!(ConditionOperator::parse_operator(">="), Some(ConditionOperator::GreaterOrEqual));
    assert_eq!(
        ConditionOperator::parse_operator("includesNone"),
        Some(ConditionOperator::IncludesNone)
    );
    assert_eq!(ConditionOperator::parse_operator("bogus"), None);
    assert_eq!(ConditionOperator::GreaterOrEqual.as_operator_str(), ">=");
    assert_eq!(
        ConditionOperator::parse_operator(ConditionOperator::Exists.as_operator_str()),
        Some(ConditionOperator::Exists)
    );
}
