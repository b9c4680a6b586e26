//! Data model of the monitor: check definitions, probe history records,
//! webhook payloads, and the error value of the administrative surface.
//!
//! Identities and timestamps are plain values here: an id is an opaque
//! string chosen by the surrounding store, and a timestamp is a number of
//! seconds. An expected response body is carried as the text of a JSON
//! document.

use vstd::prelude::*;

verus! {

/// Minimum re-probe interval class of a check.
#[derive(Clone, Copy, PartialEq, Eq, Structural, Debug)]
pub enum Frequency {
    Hourly,
    Daily,
    Weekly,
}

impl Frequency {
    /// The name of the frequency, as it is written in stored documents.
    pub open spec fn spec_name(self) -> Seq<char> {
        match self {
            Frequency::Hourly => "Hourly"@,
            Frequency::Daily => "Daily"@,
            Frequency::Weekly => "Weekly"@,
        }
    }

    pub fn to_string(&self) -> (r: String)
        ensures
            r@ == self.spec_name(),
    {
        match self {
            Frequency::Hourly => String::from_str("Hourly"),
            Frequency::Daily => String::from_str("Daily"),
            Frequency::Weekly => String::from_str("Weekly"),
        }
    }
}

/// HTTP method a check probes with: a closed set of two variants.
#[derive(Clone, Copy, PartialEq, Eq, Structural, Debug)]
pub enum HTTPMethod {
    HEAD,
    GET,
}

impl HTTPMethod {
    /// The name of the method, as it is written in stored documents and
    /// in failure reports.
    pub open spec fn spec_name(self) -> Seq<char> {
        match self {
            HTTPMethod::HEAD => "HEAD"@,
            HTTPMethod::GET => "GET"@,
        }
    }

    pub fn to_string(&self) -> (r: String)
        ensures
            r@ == self.spec_name(),
    {
        match self {
            HTTPMethod::HEAD => String::from_str("HEAD"),
            HTTPMethod::GET => String::from_str("GET"),
        }
    }
}

/// Outcome class of one executed probe.
#[derive(Clone, Copy, PartialEq, Eq, Structural, Debug)]
pub enum Status {
    Okay,
    Error,
}

/// A configured endpoint probe, as read from the check store.
pub struct Check {
    /// Opaque unique identity, assigned by the store.
    pub id: String,
    pub frequency: Frequency,
    /// Probe target.
    pub url: String,
    pub method: HTTPMethod,
    /// Text of the JSON document a GET response body must equal, if any.
    /// Only meaningful with GET; ignored defensively for HEAD.
    pub expected_body: Option<String>,
    /// URL notified on status transitions, if any.
    pub hook: Option<String>,
    /// Seconds; set when the check was created.
    pub created_at: i64,
    /// Seconds; set when the check was last updated.
    pub updated_at: i64,
}

/// Fields of a check as a caller supplies them at creation time.
pub struct NewCheck {
    pub frequency: Frequency,
    pub url: String,
    pub method: HTTPMethod,
    pub expected_body: Option<String>,
    pub hook: Option<String>,
}

impl Check {
    /// Builds a stored check from newly supplied fields, the identity the
    /// store assigned, and the current time.
    pub fn from_new(new_check: NewCheck, id: String, now: i64) -> (r: Check)
        ensures
            r.id == id,
            r.frequency == new_check.frequency,
            r.url == new_check.url,
            r.method == new_check.method,
            r.expected_body == new_check.expected_body,
            r.hook == new_check.hook,
            r.created_at == now,
            r.updated_at == now,
    {
        Check {
            id,
            frequency: new_check.frequency,
            url: new_check.url,
            method: new_check.method,
            expected_body: new_check.expected_body,
            hook: new_check.hook,
            created_at: now,
            updated_at: now,
        }
    }
}

/// Clones an optional string, keeping its value.
pub fn clone_opt_string(o: &Option<String>) -> (r: Option<String>)
    ensures
        r == *o,
{
    match o {
        Some(s) => Some(s.clone()),
        None => None,
    }
}

impl Clone for Check {
    fn clone(&self) -> (r: Self)
        ensures
            r == *self,
    {
        Check {
            id: self.id.clone(),
            frequency: self.frequency,
            url: self.url.clone(),
            method: self.method,
            expected_body: clone_opt_string(&self.expected_body),
            hook: clone_opt_string(&self.hook),
            created_at: self.created_at,
            updated_at: self.updated_at,
        }
    }
}

/// One persisted outcome of executing a check. Append-only: records are
/// created once per executed probe and never mutated.
pub struct CheckHistory {
    /// Identity of the check this record belongs to.
    pub check_id: String,
    pub status: Status,
    /// Human-readable failure reason; present exactly when `status` is
    /// `Error`.
    pub details: Option<String>,
    /// Seconds; the time the probe completed.
    pub created_at: i64,
}

impl CheckHistory {
    pub fn new(check_id: String, status: Status, details: Option<String>, created_at: i64) -> (r:
        CheckHistory)
        ensures
            r.check_id == check_id,
            r.status == status,
            r.details == details,
            r.created_at == created_at,
    {
        CheckHistory { check_id, status, details, created_at }
    }
}

/// What a webhook call carries: the triggering check, the outcome that was
/// just recorded, and its failure reason, if any. Ephemeral; never stored.
pub struct WebhookData {
    pub check: Check,
    pub status: Status,
    pub details: Option<String>,
}

impl WebhookData {
    pub fn new(status: Status, details: Option<String>, check: Check) -> (r: WebhookData)
        ensures
            r.check == check,
            r.status == status,
            r.details == details,
    {
        WebhookData { check, status, details }
    }
}

/// Failure of the persistence layer while listing checks or while reading
/// or appending history.
pub struct StoreError {
    pub message: String,
}

/// Failure to deliver a webhook call; logged by the caller and otherwise
/// ignored.
pub struct DeliveryError {
    pub message: String,
}

/// Error reply of the administrative surface: a detail text and the HTTP
/// status it is reported with.
#[derive(Debug)]
pub struct Error {
    pub detail: String,
    pub status: u16,
}

impl Error {
    pub fn bad_request(detail: String) -> (r: Self)
        ensures
            r.detail == detail,
            r.status == 400,
    {
        Self { detail, status: 400 }
    }

    pub fn not_found(detail: String) -> (r: Self)
        ensures
            r.detail == detail,
            r.status == 404,
    {
        Self { detail, status: 404 }
    }

    pub fn internal_server_error(detail: String) -> (r: Self)
        ensures
            r.detail == detail,
            r.status == 500,
    {
        Self { detail, status: 500 }
    }
}

} // verus!
