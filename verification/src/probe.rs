//! Classification of one probe's HTTP response.
//!
//! The network call itself is performed by the surrounding process; this
//! module decides, from the check's method and expected body and from
//! what came back, whether the probe passed, and with which
//! human-readable reason it failed.
//!
//! The rules: a transport failure fails the probe (for HEAD wrapped in a
//! "Malformed request" report, for GET reported as the raw cause); a
//! status of 400 or above fails it with a status-code report; below 400 a
//! HEAD probe, or a GET probe without an expected body, passes; a GET
//! probe with an expected body passes exactly when the response body
//! parses as JSON and equals the expectation.

use vstd::prelude::*;

use crate::jsontext::json_equal;
use crate::jsontext::json_parse_error;
use crate::jsontext::json_parses;
use crate::jsontext::json_rendering;
use crate::jsontext::parse_verdict;
use crate::jsontext::render_json;
use crate::jsontext::texts_equal_as_json;
use crate::models::Check;
use crate::models::HTTPMethod;
use crate::textfmt::spec_decimal;
use crate::textfmt::u16_to_string;

verus! {

/// The report for a request that could not be carried out or whose body
/// could not be decoded.
pub open spec fn spec_malformed_details(method: Seq<char>, url: Seq<char>, cause: Seq<char>) -> Seq<
    char,
> {
    "Malformed request: "@ + method + " '"@ + url + "', error '"@ + cause + "'"@
}

pub fn malformed_details(method: HTTPMethod, url: &str, cause: &str) -> (r: String)
    ensures
        r@ == spec_malformed_details(method.spec_name(), url@, cause@),
{
    let mut s = String::from_str("Malformed request: ");
    let name = method.to_string();
    s.append(name.as_str());
    s.append(" '");
    s.append(url);
    s.append("', error '");
    s.append(cause);
    s.append("'");
    s
}

/// The report for a response whose status code is 400 or above.
pub open spec fn spec_status_code_details(status: u16) -> Seq<char> {
    "Endpoint returned error status code: '"@ + spec_decimal(status as nat) + "'"@
}

pub fn status_code_details(status: u16) -> (r: String)
    ensures
        r@ == spec_status_code_details(status),
{
    let mut s = String::from_str("Endpoint returned error status code: '");
    let num = u16_to_string(status);
    s.append(num.as_str());
    s.append("'");
    s
}

/// The report for a GET response whose body parses but differs from the
/// expected document.
pub open spec fn spec_unexpected_body_details(got: Seq<char>, want: Seq<char>) -> Seq<char> {
    "Endpoint returned unexpected body: "@ + got + " != "@ + want
}

pub fn unexpected_body_details(got: &str, want: &str) -> (r: String)
    ensures
        r@ == spec_unexpected_body_details(got@, want@),
{
    let mut s = String::from_str("Endpoint returned unexpected body: ");
    s.append(got);
    s.append(" != ");
    s.append(want);
    s
}

/// Whether a status code fails the probe by itself.
pub open spec fn spec_status_is_error(status: u16) -> bool {
    status > 399
}

/// The failure reason when the request itself could not be completed: a
/// HEAD probe wraps the transport cause in a "Malformed request" report,
/// a GET probe reports the raw cause.
pub open spec fn spec_send_failure_details(method: HTTPMethod, url: Seq<char>, cause: Seq<
    char,
>) -> Seq<char> {
    match method {
        HTTPMethod::GET => cause,
        HTTPMethod::HEAD => spec_malformed_details("HEAD"@, url, cause),
    }
}

pub fn send_failure_details(method: HTTPMethod, url: &str, cause: String) -> (r: String)
    ensures
        r@ == spec_send_failure_details(method, url@, cause@),
{
    match method {
        HTTPMethod::GET => cause,
        HTTPMethod::HEAD => malformed_details(HTTPMethod::HEAD, url, cause.as_str()),
    }
}

/// Whether the response body still has to be read and checked: only a GET
/// probe with an expected body, and only when the status did not already
/// fail the probe.
pub open spec fn spec_wants_body(c: Check, status: u16) -> bool {
    &&& c.method is GET
    &&& c.expected_body is Some
    &&& !spec_status_is_error(status)
}

pub fn wants_body(c: &Check, status: u16) -> (r: bool)
    ensures
        r == spec_wants_body(*c, status),
{
    matches!(c.method, HTTPMethod::GET) && c.expected_body.is_some() && !(status > 399)
}

/// The verdict on a GET response body against an expected document:
/// `None` for a pass, `Some(details)` for a failure with its report.
///
/// A body that does not parse fails with a "Malformed request" report
/// holding the parser's message. A body that parses is compared
/// structurally with the expected document; a differing body fails with a
/// report showing both renderings. Defensively, an expected text that
/// does not itself parse as JSON never matches: the report then shows the
/// expectation's raw text.
pub open spec fn spec_body_verdict(url: Seq<char>, expected: Seq<char>, body: Seq<char>) -> Option<
    Seq<char>,
> {
    if !json_parses(body) {
        Some(spec_malformed_details("GET"@, url, json_parse_error(body)))
    } else if !json_parses(expected) {
        Some(spec_unexpected_body_details(json_rendering(body), expected))
    } else if json_equal(body, expected) {
        None
    } else {
        Some(spec_unexpected_body_details(json_rendering(body), json_rendering(expected)))
    }
}

pub fn body_verdict(url: &str, expected: &str, body: &str) -> (r: Option<String>)
    ensures
        r is Some <==> spec_body_verdict(url@, expected@, body@) is Some,
        r matches Some(d) ==> d@ == spec_body_verdict(url@, expected@, body@)->0,
{
    match parse_verdict(body) {
        Err(cause) => Some(malformed_details(HTTPMethod::GET, url, cause.as_str())),
        Ok(()) => match texts_equal_as_json(body, expected) {
            Some(true) => None,
            Some(false) => {
                let got = match render_json(body) {
                    Some(g) => g,
                    None => unreached(),
                };
                let want = match render_json(expected) {
                    Some(w) => w,
                    None => unreached(),
                };
                Some(unexpected_body_details(got.as_str(), want.as_str()))
            },
            None => {
                let got = match render_json(body) {
                    Some(g) => g,
                    None => unreached(),
                };
                Some(unexpected_body_details(got.as_str(), expected))
            },
        },
    }
}

} // verus!
