//! Trusted view of JSON texts, through serde_json.
//!
//! A response body and an expected body travel through the core as plain
//! text. Whether such a text parses as JSON, whether two texts denote
//! structurally equal documents, and how a parsed document is rendered
//! are each a function of the text alone; the functions below name those
//! results and the wrappers state them of the serde_json calls.

use vstd::prelude::*;

verus! {

/// Whether serde_json parses the text as a JSON document.
pub uninterp spec fn json_parses(s: Seq<char>) -> bool;

/// The message with which serde_json refuses a text that does not parse.
pub uninterp spec fn json_parse_error(s: Seq<char>) -> Seq<char>;

/// Whether the documents parsed from two texts are structurally equal.
pub uninterp spec fn json_equal(a: Seq<char>, b: Seq<char>) -> bool;

/// The compact rendering of the document parsed from a text.
pub uninterp spec fn json_rendering(s: Seq<char>) -> Seq<char>;

/// Relies on serde_json::from_str::<Value> and serde_json::Error's
/// Display: whether a text parses, and with what message it is refused,
/// depend on the text alone.
#[verifier::external_body]
pub(crate) fn parse_verdict(s: &str) -> (r: Result<(), String>)
    ensures
        r is Ok <==> json_parses(s@),
        r matches Err(e) ==> e@ == json_parse_error(s@),
{
    match serde_json::from_str::<serde_json::Value>(s) {
        Ok(_) => Ok(()),
        Err(e) => Err(e.to_string()),
    }
}

/// Relies on serde_json::from_str::<Value> and Value's PartialEq:
/// structural equality of the two parsed documents depends on the two
/// texts alone.
#[verifier::external_body]
pub(crate) fn texts_equal_as_json(a: &str, b: &str) -> (r: Option<bool>)
    ensures
        r is Some <==> (json_parses(a@) && json_parses(b@)),
        r matches Some(eq) ==> eq == json_equal(a@, b@),
{
    let va: serde_json::Value = match serde_json::from_str(a) {
        Ok(v) => v,
        Err(_) => return None,
    };
    let vb: serde_json::Value = match serde_json::from_str(b) {
        Ok(v) => v,
        Err(_) => return None,
    };
    Some(va == vb)
}

/// Relies on serde_json::from_str::<Value> and Value's Display: the
/// compact rendering of the parsed document depends on the text alone.
#[verifier::external_body]
pub(crate) fn render_json(s: &str) -> (r: Option<String>)
    ensures
        r is Some <==> json_parses(s@),
        r matches Some(t) ==> t@ == json_rendering(s@),
{
    match serde_json::from_str::<serde_json::Value>(s) {
        Ok(v) => Some(v.to_string()),
        Err(_) => None,
    }
}

} // verus!
