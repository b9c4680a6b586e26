//! Decision rules of the administrative surface around the check store:
//! which creations and updates are acceptable, and what an update changes.
//!
//! The store itself (its transport and its query language) lies outside
//! the core; these functions carry its rules: an expected body makes
//! sense only for a GET probe, so a creation or an update that would pair
//! an expected body with HEAD is refused, and an update that supplies an
//! expected body without touching the method must only match a check
//! whose method is GET.

use vstd::prelude::*;

use crate::models::Error;
use crate::models::Frequency;
use crate::models::HTTPMethod;
use crate::models::NewCheck;

verus! {

/// An update's intent for one optional field: leave it alone, clear it,
/// or assign a value.
#[derive(Debug)]
pub enum FieldChange<T> {
    Keep,
    Clear,
    Assign(T),
}

impl<T> FieldChange<T> {
    /// Whether the update touches the field at all.
    pub open spec fn spec_touches(self) -> bool {
        !(self is Keep)
    }

    pub fn touches(&self) -> (r: bool)
        ensures
            r == self.spec_touches(),
    {
        !matches!(self, FieldChange::Keep)
    }
}

/// A requested update of one check: absent plain fields are left alone,
/// and the two optional fields carry a three-way intent.
pub struct UpdateCheck {
    pub frequency: Option<Frequency>,
    pub url: Option<String>,
    pub method: Option<HTTPMethod>,
    pub expected_body: FieldChange<String>,
    pub hook: FieldChange<String>,
}

/// An accepted update, ready to be applied by the store: the fields to
/// set, and whether the selection must additionally insist on a GET
/// check.
#[derive(Debug)]
pub struct UpdatePlan {
    pub set_frequency: Option<Frequency>,
    pub set_url: Option<String>,
    pub set_method: Option<HTTPMethod>,
    pub expected_body: FieldChange<String>,
    pub hook: FieldChange<String>,
    /// Set when the update supplies an expected body without touching
    /// the method: it must then only match a check probed with GET, so
    /// the pairing rule cannot be broken by an update to a HEAD check.
    pub require_method_get: bool,
}

/// The refusal shown when an expected body would be paired with HEAD.
pub open spec fn spec_expected_body_rule_msg() -> Seq<char> {
    "Expected body parameter is only allowed with GET requests."@
}

/// The report for a check id that matched nothing.
pub open spec fn spec_check_not_found_msg(id: Seq<char>) -> Seq<char> {
    "Check not found with id '"@ + id + "'"@
}

pub fn check_not_found_msg(id: &str) -> (r: String)
    ensures
        r@ == spec_check_not_found_msg(id@),
{
    let mut s = String::from_str("Check not found with id '");
    s.append(id);
    s.append("'");
    s
}

/// A new check is acceptable unless it pairs an expected body with HEAD.
pub open spec fn spec_new_check_acceptable(c: NewCheck) -> bool {
    !(c.expected_body is Some && c.method is HEAD)
}

/// The creation rule: accepts exactly the checks without a HEAD-paired
/// expected body, and refuses the others as a bad request with the
/// pairing rule's message.
pub fn validate_new_check(c: &NewCheck) -> (r: Result<(), Error>)
    ensures
        r is Ok <==> spec_new_check_acceptable(*c),
        r matches Err(err) ==> err.status == 400 && err.detail@ == spec_expected_body_rule_msg(),
{
    if c.expected_body.is_some() && matches!(c.method, HTTPMethod::HEAD) {
        Err(
            Error::bad_request(
                String::from_str("Expected body parameter is only allowed with GET requests."),
            ),
        )
    } else {
        Ok(())
    }
}

/// An update is acceptable unless it supplies or clears an expected body
/// while setting the method to HEAD.
pub open spec fn spec_update_acceptable(u: UpdateCheck) -> bool {
    !(u.expected_body.spec_touches() && u.method == Some(HTTPMethod::HEAD))
}

/// The update rule: refuses an update that touches the expected body
/// while setting the method to HEAD; otherwise hands back the fields to
/// set unchanged, insisting on a GET check exactly when the expected
/// body is touched and the method is not.
pub fn plan_update(u: UpdateCheck) -> (r: Result<UpdatePlan, Error>)
    ensures
        r is Ok <==> spec_update_acceptable(u),
        r matches Ok(p) ==> p.set_frequency == u.frequency && p.set_url == u.url && p.set_method
            == u.method && p.expected_body == u.expected_body && p.hook == u.hook
            && p.require_method_get == (u.expected_body.spec_touches() && u.method is None),
        r matches Err(err) ==> err.status == 400 && err.detail@ == spec_expected_body_rule_msg(),
{
    let touches_body = u.expected_body.touches();
    if touches_body && matches!(u.method, Some(HTTPMethod::HEAD)) {
        return Err(
            Error::bad_request(
                String::from_str("Expected body parameter is only allowed with GET requests."),
            ),
        );
    }
    let require_method_get = touches_body && u.method.is_none();
    Ok(
        UpdatePlan {
            set_frequency: u.frequency,
            set_url: u.url,
            set_method: u.method,
            expected_body: u.expected_body,
            hook: u.hook,
            require_method_get,
        },
    )
}

} // verus!
