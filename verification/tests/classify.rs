use swagger_scan::config::parse_workers;
use swagger_scan::outcome::{body_has_marker, classify, Outcome, ProbeResponse};
use swagger_scan::text::contains_str;

#[test]
fn marker_in_body_matches() {
    let url = "https://a.test/swagger-ui.html".to_string();
    let body = "<html><title>Swagger UI</title></html>".to_string();
    let outcome = classify(url, ProbeResponse::Body(body));
    match outcome {
        Outcome::Matched(u) => assert_eq!(u, "https://a.test/swagger-ui.html"),
        _ => panic!("expected a match"),
    }
}

#[test]
fn plain_body_does_not_match() {
    let url = "https://b.test/nope".to_string();
    let outcome = classify(url, ProbeResponse::Body("hello world".to_string()));
    match outcome {
        Outcome::NotMatched(u) => assert_eq!(u, "https://b.test/nope"),
        _ => panic!("expected not-matched"),
    }
}

#[test]
fn transport_failure_is_an_error_outcome() {
    let url = "https://c.test/x".to_string();
    let outcome = classify(url, ProbeResponse::Failure("connection timed out".to_string()));
    match outcome {
        Outcome::TransportError(u, e) => {
            assert_eq!(u, "https://c.test/x");
            assert_eq!(e, "connection timed out");
        }
        _ => panic!("expected a transport error"),
    }
}

#[test]
fn marker_check_is_case_sensitive_containment() {
    assert!(body_has_marker("xxSwagger UIyy"));
    assert!(body_has_marker("Swagger UI"));
    assert!(!body_has_marker("swagger ui"));
    assert!(!body_has_marker("Swagger-UI"));
    assert!(!body_has_marker(""));
}

#[test]
fn substring_search_finds_patterns() {
    assert!(contains_str("hello world", "o w"));
    assert!(contains_str("hello", "hello"));
    assert!(contains_str("hello", ""));
    assert!(contains_str("", ""));
    assert!(!contains_str("", "a"));
    assert!(!contains_str("ab", "abc"));
    assert!(!contains_str("aaab", "ab c"));
    assert!(contains_str("aaab", "aab"));
}

#[test]
fn workers_default_when_absent() {
    assert_eq!(parse_workers(None), 10);
}

#[test]
fn workers_parse_positive_decimal() {
    assert_eq!(parse_workers(Some("1")), 1);
    assert_eq!(parse_workers(Some("25")), 25);
    assert_eq!(parse_workers(Some("10")), 10);
}

#[test]
fn workers_default_on_unparsable_input() {
    assert_eq!(parse_workers(Some("")), 10);
    assert_eq!(parse_workers(Some("abc")), 10);
    assert_eq!(parse_workers(Some("1x")), 10);
    assert_eq!(parse_workers(Some("-3")), 10);
    assert_eq!(parse_workers(Some("0")), 10);
    assert_eq!(parse_workers(Some("99999999999999999999999999")), 10);
}
