use cc_sonde::config::Checks;
use cc_sonde::healthcheck::{evaluate_response, CheckFailure, HeaderObservation};
use cc_sonde::text::contains_str;

fn checks() -> Checks {
    Checks { expected_status: None, expected_body_contains: None, expected_body_regex: None, expected_header: None }
}

fn header(name: &str, expected: &str, actual: Option<&str>) -> HeaderObservation {
    HeaderObservation { name: name.to_string(), expected: expected.to_string(), actual: actual.map(|a| a.to_string()) }
}

#[test]
fn response_checks_status_first() {
    let mut c = checks();
    c.expected_status = Some(200);
    c.expected_body_contains = Some("ok".to_string());
    assert!(evaluate_response(&c, 200, "all ok", &Vec::new()).is_ok());
    match evaluate_response(&c, 503, "nope", &Vec::new()) {
        Err(CheckFailure::Status { expected, actual }) => {
            assert_eq!(expected, 200);
            assert_eq!(actual, 503);
        }
        _ => panic!("expected a status failure"),
    }
    assert!(matches!(evaluate_response(&c, 200, "nope", &Vec::new()), Err(CheckFailure::BodyMissing)));
}

#[test]
fn response_regex_goes_through_the_regex_crate() {
    let mut c = checks();
    c.expected_body_regex = Some(r#""status":\s*"(up|ok)""#.to_string());
    assert!(evaluate_response(&c, 200, r#"{"status": "up"}"#, &Vec::new()).is_ok());
    assert!(matches!(evaluate_response(&c, 200, r#"{"status": "down"}"#, &Vec::new()), Err(CheckFailure::RegexMismatch)));
    c.expected_body_regex = Some("(".to_string());
    assert!(matches!(evaluate_response(&c, 200, "(", &Vec::new()), Err(CheckFailure::RegexInvalid)));
}

#[test]
fn response_headers_must_match() {
    let c = checks();
    let good = vec![header("content-type", "text/html", Some("text/html"))];
    assert!(evaluate_response(&c, 200, "", &good).is_ok());
    let bad = vec![header("x-a", "1", Some("1")), header("x-b", "2", None), header("x-c", "3", Some("4"))];
    match evaluate_response(&c, 200, "", &bad) {
        Err(CheckFailure::Header { name }) => assert_eq!(name, "x-b"),
        _ => panic!("expected a header failure"),
    }
}

#[test]
fn substring_search() {
    assert!(contains_str("hello world", "o w"));
    assert!(contains_str("abc", ""));
    assert!(contains_str("abc", "abc"));
    assert!(!contains_str("abc", "abcd"));
    assert!(!contains_str("", "a"));
}
