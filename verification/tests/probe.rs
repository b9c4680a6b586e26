use uptime_monitor::models::HTTPMethod;
use uptime_monitor::probe::body_verdict;
use uptime_monitor::probe::malformed_details;
use uptime_monitor::probe::send_failure_details;
use uptime_monitor::probe::status_code_details;
use uptime_monitor::probe::unexpected_body_details;
use uptime_monitor::textfmt::u16_to_string;

#[test]
fn decimal_rendering() {
    assert_eq!(u16_to_string(0), "0");
    assert_eq!(u16_to_string(7), "7");
    assert_eq!(u16_to_string(200), "200");
    assert_eq!(u16_to_string(404), "404");
    assert_eq!(u16_to_string(65535), "65535");
}

#[test]
fn status_code_message() {
    assert_eq!(
        status_code_details(404),
        "Endpoint returned error status code: '404'"
    );
    assert_eq!(
        status_code_details(500),
        "Endpoint returned error status code: '500'"
    );
}

#[test]
fn malformed_message() {
    assert_eq!(
        malformed_details(HTTPMethod::HEAD, "http://x.test", "boom"),
        "Malformed request: HEAD 'http://x.test', error 'boom'"
    );
    assert_eq!(
        malformed_details(HTTPMethod::GET, "http://x.test", "no body"),
        "Malformed request: GET 'http://x.test', error 'no body'"
    );
}

#[test]
fn unexpected_body_message() {
    assert_eq!(
        unexpected_body_details("{\"a\":2}", "{\"a\":1}"),
        "Endpoint returned unexpected body: {\"a\":2} != {\"a\":1}"
    );
}

#[test]
fn send_failure_wraps_head_but_not_get() {
    assert_eq!(
        send_failure_details(HTTPMethod::GET, "http://x.test", "connect refused".to_string()),
        "connect refused"
    );
    assert_eq!(
        send_failure_details(HTTPMethod::HEAD, "http://x.test", "connect refused".to_string()),
        "Malformed request: HEAD 'http://x.test', error 'connect refused'"
    );
}

#[test]
fn equal_body_passes() {
    assert_eq!(body_verdict("http://x.test", "{\"a\":1}", "{\"a\":1}"), None);
}

#[test]
fn equal_body_passes_despite_formatting() {
    // Structural equality: spacing and key order do not matter.
    assert_eq!(
        body_verdict("http://x.test", "{\"a\": 1, \"b\": [2, 3]}", "{\"b\":[2,3],\"a\":1}"),
        None
    );
}

#[test]
fn differing_body_fails_with_both_renderings() {
    let verdict = body_verdict("http://x.test", "{\"a\":1}", "{\"a\":2}");
    assert_eq!(
        verdict.as_deref(),
        Some("Endpoint returned unexpected body: {\"a\":2} != {\"a\":1}")
    );
}

#[test]
fn unparseable_body_fails_as_malformed() {
    let verdict = body_verdict("http://x.test", "{\"a\":1}", "not json at all").unwrap();
    assert!(verdict.starts_with("Malformed request: GET 'http://x.test', error '"));
    assert!(verdict.ends_with("'"));
}

#[test]
fn unparseable_expectation_never_matches() {
    let verdict = body_verdict("http://x.test", "not json", "{\"a\":1}").unwrap();
    assert_eq!(verdict, "Endpoint returned unexpected body: {\"a\":1} != not json");
}
