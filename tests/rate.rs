use freshtracks::api::{is_empty_body, response_outcome, ResponseOutcome};
use freshtracks::rate::{normalize_rate, normalize_rate_text, RateInput, RateOutcome};

fn to_number(o: RateOutcome) -> Option<f64> {
    match o {
        RateOutcome::Absent => None,
        RateOutcome::Number(t) | RateOutcome::Parse(t) => t.parse::<f64>().ok(),
    }
}

#[test]
fn rate_numeric_string() {
    let o = normalize_rate(&RateInput::Text("12.50".to_string()));
    assert!(matches!(&o, RateOutcome::Parse(t) if t == "12.50"));
    assert_eq!(to_number(o), Some(12.5));
}

#[test]
fn rate_blank_string() {
    assert!(matches!(normalize_rate(&RateInput::Text(String::new())), RateOutcome::Absent));
    assert!(matches!(normalize_rate_text("   "), RateOutcome::Absent));
}

#[test]
fn rate_null_word_any_case() {
    assert!(matches!(normalize_rate_text("null"), RateOutcome::Absent));
    assert!(matches!(normalize_rate_text("NULL"), RateOutcome::Absent));
    assert!(matches!(normalize_rate_text(" NuLl "), RateOutcome::Absent));
}

#[test]
fn rate_number() {
    let o = normalize_rate(&RateInput::Number("42".to_string()));
    assert_eq!(to_number(o), Some(42.0));
}

#[test]
fn rate_boolean_and_null() {
    assert!(matches!(normalize_rate(&RateInput::Other), RateOutcome::Absent));
    assert!(matches!(normalize_rate(&RateInput::Null), RateOutcome::Absent));
    assert!(matches!(normalize_rate(&RateInput::Missing), RateOutcome::Absent));
}

#[test]
fn rate_trims_and_unparsable_is_absent() {
    assert!(matches!(normalize_rate_text(" 7.25 "), RateOutcome::Parse(t) if t == "7.25"));
    assert_eq!(to_number(normalize_rate_text("abc")), None);
}

#[test]
fn response_outcomes() {
    assert_eq!(response_outcome(204, true, true), ResponseOutcome::Empty);
    assert_eq!(response_outcome(404, true, true), ResponseOutcome::Empty);
    assert_eq!(response_outcome(404, false, true), ResponseOutcome::Failed);
    assert_eq!(response_outcome(401, true, true), ResponseOutcome::AuthFailed);
    assert_eq!(response_outcome(401, false, false), ResponseOutcome::Failed);
    assert_eq!(response_outcome(200, false, false), ResponseOutcome::Proceed);
    assert_eq!(response_outcome(204, false, false), ResponseOutcome::Proceed);
}

#[test]
fn empty_bodies() {
    assert!(is_empty_body(""));
    assert!(is_empty_body("null"));
    assert!(!is_empty_body("{\"id\":1}"));
    assert!(!is_empty_body("NULL"));
}

#[test]
fn rate_trims_unicode_white_space() {
    assert!(matches!(normalize_rate_text("\u{3000}\t7.5\u{a0}\n"), RateOutcome::Parse(t) if t == "7.5"));
    assert!(matches!(normalize_rate_text("\u{2028}null\u{85}"), RateOutcome::Absent));
    assert!(matches!(normalize_rate_text("1 2"), RateOutcome::Parse(t) if t == "1 2"));
}
