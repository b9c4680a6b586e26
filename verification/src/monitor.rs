//! The monitor cycle engine.
//!
//! The loop that probes every check forever alternates outside work
//! (store reads, network calls, sleeping) with decisions. The decisions
//! live here as a state machine: the engine answers each completed piece
//! of outside work (an [`Event`]) with the next piece to perform (an
//! [`Action`]), and its contract pins every transition.
//!
//! One cycle: list all checks; for each in turn, read its latest history
//! record and apply the schedule rule; if due, send the probe request,
//! read the body where an expected body must be checked, classify the
//! outcome, append exactly one history record, and notify the check's
//! hook when the notifier rule fires; then sleep and start over. A store
//! failure while listing ends only the cycle — the engine sleeps and
//! lists afresh next cycle. A store failure on one check's history, read
//! or append, abandons that check alone and the engine moves to the next.

use vstd::prelude::*;

use crate::models::CheckHistory;
use crate::models::DeliveryError;
use crate::models::HTTPMethod;
use crate::models::Status;
use crate::models::StoreError;
use crate::models::WebhookData;
use crate::models::Check;
use crate::models::clone_opt_string;
use crate::notify::should_notify;
use crate::notify::spec_opt_view;
use crate::notify::spec_should_notify;
use crate::probe::body_verdict;
use crate::probe::malformed_details;
use crate::probe::send_failure_details;
use crate::probe::spec_body_verdict;
use crate::probe::spec_malformed_details;
use crate::probe::spec_send_failure_details;
use crate::probe::spec_status_code_details;
use crate::probe::spec_status_is_error;
use crate::probe::spec_wants_body;
use crate::probe::status_code_details;
use crate::probe::wants_body;
use crate::schedule::is_due;
use crate::schedule::spec_due;

verus! {

/// Where the engine stands: between two cycles, waiting for the check
/// listing, or part way through one check's processing.
pub enum Phase {
    /// Waiting for the listing of all checks.
    Listing,
    /// Waiting for the latest history record of the check at `idx`.
    AwaitLatest { idx: usize },
    /// Waiting for the probe request's result.
    AwaitSend { idx: usize, previous: Option<Status> },
    /// Waiting for the response body, to check against the expected one.
    AwaitBody { idx: usize, previous: Option<Status> },
    /// Waiting for the history record of the classified outcome to be
    /// appended.
    AwaitAppend { idx: usize, previous: Option<Status>, status: Status, details: Option<String> },
    /// Waiting for the webhook call to finish.
    AwaitPost { idx: usize },
    /// Waiting out the pause between two cycles.
    Sleeping,
}

/// The next piece of outside work the surrounding process must perform.
pub enum Action {
    /// Read all check definitions from the check store.
    ListChecks,
    /// Read the most recent history record of one check.
    FetchLatest { check_id: String },
    /// Send the probe request, one network round trip.
    SendRequest { method: HTTPMethod, url: String },
    /// Read the response body of the request just sent.
    ReadBody,
    /// Durably append one history record.
    Append { record: CheckHistory },
    /// POST the payload to the hook.
    Post { hook: String, payload: WebhookData },
    /// Pause until the next cycle.
    Sleep,
}

/// The result of a completed piece of outside work, handed back to the
/// engine.
pub enum Event {
    Checks(Result<Vec<Check>, StoreError>),
    Latest(Result<Option<CheckHistory>, StoreError>),
    /// The probe request's result: the response's status code, or the
    /// transport failure's description.
    Sent(Result<u16, String>),
    /// The response body's text, or the failure to read it.
    Body(Result<String, String>),
    Appended(Result<(), StoreError>),
    Posted(Result<(), DeliveryError>),
    Slept,
}

/// The status of the latest history record, if there is one.
pub open spec fn spec_status_of(latest: Option<CheckHistory>) -> Option<Status> {
    match latest {
        Some(h) => Some(h.status),
        None => None,
    }
}

pub struct Engine {
    pub checks: Vec<Check>,
    pub phase: Phase,
}

impl Engine {
    /// Every index the phase carries points into the listing, and the
    /// body of a response is only awaited for a GET check with an
    /// expected body.
    pub open spec fn wf(self) -> bool {
        match self.phase {
            Phase::Listing => true,
            Phase::Sleeping => true,
            Phase::AwaitLatest { idx } => idx < self.checks.len(),
            Phase::AwaitSend { idx, previous } => idx < self.checks.len(),
            Phase::AwaitBody { idx, previous } => idx < self.checks.len()
                && self.checks@[idx as int].method is GET
                && self.checks@[idx as int].expected_body is Some,
            Phase::AwaitAppend { idx, previous, status, details } => idx < self.checks.len(),
            Phase::AwaitPost { idx } => idx < self.checks.len(),
        }
    }

    /// Which event answers the work the engine last asked for.
    pub open spec fn accepts(self, e: Event) -> bool {
        match (self.phase, e) {
            (Phase::Listing, Event::Checks(_)) => true,
            (Phase::AwaitLatest { .. }, Event::Latest(_)) => true,
            (Phase::AwaitSend { .. }, Event::Sent(_)) => true,
            (Phase::AwaitBody { .. }, Event::Body(_)) => true,
            (Phase::AwaitAppend { .. }, Event::Appended(_)) => true,
            (Phase::AwaitPost { .. }, Event::Posted(_)) => true,
            (Phase::Sleeping, Event::Slept) => true,
            _ => false,
        }
    }
}

/// Holds after the engine has moved on to the check at `i`: it waits for
/// that check's latest history record, or, past the last check, sleeps
/// out the cycle.
pub open spec fn spec_advanced(post: Engine, a: Action, i: int) -> bool {
    if i < post.checks.len() {
        &&& match post.phase {
            Phase::AwaitLatest { idx } => idx as int == i,
            _ => false,
        }
        &&& match a {
            Action::FetchLatest { check_id } => check_id@ == post.checks@[i].id@,
            _ => false,
        }
    } else {
        &&& post.phase is Sleeping
        &&& a is Sleep
    }
}

/// Holds after a probe was classified: the engine asks for exactly one
/// history record to be appended — the outcome for this check, stamped
/// with the probe's completion time — and waits for the append.
pub open spec fn spec_probe_recorded(
    pre: Engine,
    post: Engine,
    a: Action,
    i: int,
    prev: Option<Status>,
    outcome: Status,
    report: Option<Seq<char>>,
    now: int,
) -> bool {
    &&& post.checks == pre.checks
    &&& match post.phase {
        Phase::AwaitAppend { idx, previous, status, details } => idx as int == i && previous == prev
            && status == outcome && spec_opt_view(details) == report,
        _ => false,
    }
    &&& match a {
        Action::Append { record } => record.check_id@ == pre.checks@[i].id@ && record.status
            == outcome && spec_opt_view(record.details) == report && record.created_at as int
            == now,
        _ => false,
    }
}

/// Holds after the schedule rule let a check through: the engine asks for the
/// probe request with the check's own method and URL, carrying the
/// previous status for the later notification decision.
pub open spec fn spec_probing(pre: Engine, post: Engine, a: Action, i: int, prev: Option<
    Status,
>) -> bool {
    &&& post.checks == pre.checks
    &&& match post.phase {
        Phase::AwaitSend { idx, previous } => idx as int == i && previous == prev,
        _ => false,
    }
    &&& match a {
        Action::SendRequest { method, url } => method == pre.checks@[i].method && url@
            == pre.checks@[i].url@,
        _ => false,
    }
}

/// Holds when the engine asks for the response body of the check at `i`.
pub open spec fn spec_reading_body(pre: Engine, post: Engine, a: Action, i: int, prev: Option<
    Status,
>) -> bool {
    &&& post.checks == pre.checks
    &&& match post.phase {
        Phase::AwaitBody { idx, previous } => idx as int == i && previous == prev,
        _ => false,
    }
    &&& a is ReadBody
}

/// Holds when the engine asks for the webhook call of the check at `i`,
/// with the outcome that was just recorded.
pub open spec fn spec_posting(
    pre: Engine,
    post: Engine,
    a: Action,
    i: int,
    outcome: Status,
    report: Option<String>,
) -> bool {
    &&& post.checks == pre.checks
    &&& match post.phase {
        Phase::AwaitPost { idx } => idx as int == i,
        _ => false,
    }
    &&& match a {
        Action::Post { hook, payload } => hook@ == pre.checks@[i].hook->0@ && payload.check
            == pre.checks@[i] && payload.status == outcome && payload.details == report,
        _ => false,
    }
}

impl Engine {
    /// A fresh engine, about to list all checks for its first cycle.
    pub fn start() -> (r: (Engine, Action))
        ensures
            r.0.wf(),
            r.0.phase is Listing,
            r.0.checks@.len() == 0,
            r.1 is ListChecks,
    {
        (Engine { checks: Vec::new(), phase: Phase::Listing }, Action::ListChecks)
    }

    /// Moves on to the check at `i`, or to the inter-cycle sleep past the
    /// last one.
    fn advance(&mut self, i: usize) -> (a: Action)
        requires
            i <= old(self).checks.len(),
        ensures
            final(self).checks == old(self).checks,
            final(self).wf(),
            spec_advanced(*final(self), a, i as int),
    {
        if i < self.checks.len() {
            let check_id = self.checks[i].id.clone();
            self.phase = Phase::AwaitLatest { idx: i };
            Action::FetchLatest { check_id }
        } else {
            self.phase = Phase::Sleeping;
            Action::Sleep
        }
    }

    /// Records a classified probe outcome: builds the one history record
    /// for it and waits for the append.
    fn finish_probe(
        &mut self,
        i: usize,
        previous: Option<Status>,
        status: Status,
        details: Option<String>,
        now: i64,
    ) -> (a: Action)
        requires
            i < old(self).checks.len(),
        ensures
            final(self).wf(),
            spec_probe_recorded(
                *old(self),
                *final(self),
                a,
                i as int,
                previous,
                status,
                spec_opt_view(details),
                now as int,
            ),
    {
        let record = CheckHistory::new(
            self.checks[i].id.clone(),
            status,
            clone_opt_string(&details),
            now,
        );
        self.phase = Phase::AwaitAppend { idx: i, previous, status, details };
        Action::Append { record }
    }

    /// One transition: answers the completed piece of outside work with
    /// the next one to perform.
    ///
    /// `now` is the clock reading at the moment the event is handed in;
    /// the due decision and the record timestamp use it.
    ///
    /// The contract pins every transition, and with it the loop's laws:
    /// a failed listing ends the cycle with nothing but the sleep, and
    /// the following cycle lists afresh; a check that is not due, or
    /// whose history cannot be read, is passed over without a probe and
    /// without a record; an executed probe appends exactly one record —
    /// an append is asked for in no other place — and a failed append
    /// abandons the check before any notification; the webhook is called
    /// exactly when the notifier rule fires, and its failure only moves
    /// the engine on.
    pub fn step(&mut self, now: i64, e: Event) -> (a: Action)
        requires
            old(self).wf(),
            old(self).accepts(e),
        ensures
            final(self).wf(),
            // The listing is the only place the set of checks changes.
            !(old(self).phase is Listing) ==> final(self).checks == old(self).checks,
            // A record is appended only right after an executed probe.
            a is Append ==> old(self).phase is AwaitSend || old(self).phase is AwaitBody,
            // A failed listing ends the cycle with nothing but the
            // sleep; a successful one starts on the first check.
            old(self).phase is Listing ==> (e matches Event::Checks(r) ==> ({
                &&& r is Err ==> (final(self).phase is Sleeping && a is Sleep)
                &&& r matches Ok(v) ==> (final(self).checks == v && spec_advanced(
                    *final(self),
                    a,
                    0,
                ))
            })),
            // After the sleep, the next cycle lists afresh.
            old(self).phase is Sleeping && e is Slept ==> (final(self).phase is Listing
                && a is ListChecks),
            // A history read failure abandons this check alone; otherwise
            // the schedule rule decides: a check that is not due is passed over
            // with no probe and no record, a due one is probed.
            old(self).phase matches Phase::AwaitLatest { idx } ==> (e matches Event::Latest(r)
                ==> ({
                let c = old(self).checks@[idx as int];
                &&& r is Err ==> spec_advanced(*final(self), a, idx + 1)
                &&& r matches Ok(latest) ==> ({
                    &&& !spec_due(c.frequency, latest, now as int) ==> (!(a is SendRequest) && !(
                    a is Append) && spec_advanced(*final(self), a, idx + 1))
                    &&& spec_due(c.frequency, latest, now as int) ==> spec_probing(
                        *old(self),
                        *final(self),
                        a,
                        idx as int,
                        spec_status_of(latest),
                    )
                })
            })),
            // The probe request came back: a transport failure fails the
            // probe with its reason, a status of 400 or above fails it
            // with the code, and below 400 it passes — unless a GET with
            // an expected body still has its body to read.
            old(self).phase matches Phase::AwaitSend { idx, previous } ==> (
            e matches Event::Sent(r) ==> ({
                let c = old(self).checks@[idx as int];
                &&& r matches Err(cause) ==> spec_probe_recorded(
                    *old(self),
                    *final(self),
                    a,
                    idx as int,
                    previous,
                    Status::Error,
                    Some(spec_send_failure_details(c.method, c.url@, cause@)),
                    now as int,
                )
                &&& r matches Ok(status) ==> ({
                    &&& spec_status_is_error(status) ==> spec_probe_recorded(
                        *old(self),
                        *final(self),
                        a,
                        idx as int,
                        previous,
                        Status::Error,
                        Some(spec_status_code_details(status)),
                        now as int,
                    )
                    &&& !spec_status_is_error(status) && spec_wants_body(c, status)
                        ==> spec_reading_body(*old(self), *final(self), a, idx as int, previous)
                    &&& !spec_status_is_error(status) && !spec_wants_body(c, status)
                        ==> spec_probe_recorded(
                        *old(self),
                        *final(self),
                        a,
                        idx as int,
                        previous,
                        Status::Okay,
                        None,
                        now as int,
                    )
                })
            })),
            // The body came back: one that cannot be read fails the probe
            // as malformed, one that was read is judged against the
            // expected document.
            old(self).phase matches Phase::AwaitBody { idx, previous } ==> (
            e matches Event::Body(r) ==> ({
                let c = old(self).checks@[idx as int];
                &&& r matches Err(cause) ==> spec_probe_recorded(
                    *old(self),
                    *final(self),
                    a,
                    idx as int,
                    previous,
                    Status::Error,
                    Some(spec_malformed_details("GET"@, c.url@, cause@)),
                    now as int,
                )
                &&& r matches Ok(text) ==> (match spec_body_verdict(
                    c.url@,
                    c.expected_body->0@,
                    text@,
                ) {
                    None => spec_probe_recorded(
                        *old(self),
                        *final(self),
                        a,
                        idx as int,
                        previous,
                        Status::Okay,
                        None,
                        now as int,
                    ),
                    Some(d) => spec_probe_recorded(
                        *old(self),
                        *final(self),
                        a,
                        idx as int,
                        previous,
                        Status::Error,
                        Some(d),
                        now as int,
                    ),
                })
            })),
            // The append came back: a failure abandons the check before
            // any notification; after a success the webhook fires exactly
            // when the notifier rule says so, with the recorded outcome.
            old(self).phase matches Phase::AwaitAppend { idx, previous, status, details } ==> (
            e matches Event::Appended(r) ==> ({
                let fire = spec_should_notify(
                    spec_opt_view(old(self).checks@[idx as int].hook),
                    status,
                    previous,
                );
                &&& r is Err ==> (!(a is Post) && spec_advanced(*final(self), a, idx + 1))
                &&& r is Ok && fire ==> spec_posting(
                    *old(self),
                    *final(self),
                    a,
                    idx as int,
                    status,
                    details,
                )
                &&& r is Ok && !fire ==> (!(a is Post) && spec_advanced(*final(self), a, idx + 1))
            })),
            // The webhook call's own outcome is ignored either way.
            old(self).phase matches Phase::AwaitPost { idx } ==> (e matches Event::Posted(r)
                ==> spec_advanced(*final(self), a, idx + 1)),
    {
        let mut ph = Phase::Listing;
        core::mem::swap(&mut ph, &mut self.phase);
        match (ph, e) {
            (Phase::Listing, Event::Checks(r)) => match r {
                Ok(v) => {
                    self.checks = v;
                    self.advance(0)
                },
                Err(_) => {
                    self.phase = Phase::Sleeping;
                    Action::Sleep
                },
            },
            (Phase::AwaitLatest { idx }, Event::Latest(r)) => match r {
                Err(_) => self.advance(idx + 1),
                Ok(latest) => {
                    let due = is_due(self.checks[idx].frequency, &latest, now);
                    if due {
                        let previous = match &latest {
                            Some(h) => Some(h.status),
                            None => None,
                        };
                        let method = self.checks[idx].method;
                        let url = self.checks[idx].url.clone();
                        self.phase = Phase::AwaitSend { idx, previous };
                        Action::SendRequest { method, url }
                    } else {
                        self.advance(idx + 1)
                    }
                },
            },
            (Phase::AwaitSend { idx, previous }, Event::Sent(r)) => match r {
                Err(cause) => {
                    let details = send_failure_details(
                        self.checks[idx].method,
                        self.checks[idx].url.as_str(),
                        cause,
                    );
                    self.finish_probe(idx, previous, Status::Error, Some(details), now)
                },
                Ok(status) => {
                    if status > 399 {
                        let details = status_code_details(status);
                        self.finish_probe(idx, previous, Status::Error, Some(details), now)
                    } else if wants_body(&self.checks[idx], status) {
                        self.phase = Phase::AwaitBody { idx, previous };
                        Action::ReadBody
                    } else {
                        self.finish_probe(idx, previous, Status::Okay, None, now)
                    }
                },
            },
            (Phase::AwaitBody { idx, previous }, Event::Body(r)) => match r {
                Err(cause) => {
                    let details = malformed_details(
                        HTTPMethod::GET,
                        self.checks[idx].url.as_str(),
                        cause.as_str(),
                    );
                    self.finish_probe(idx, previous, Status::Error, Some(details), now)
                },
                Ok(text) => {
                    let verdict = {
                        let c = &self.checks[idx];
                        let expected = match &c.expected_body {
                            Some(t) => t,
                            None => unreached(),
                        };
                        body_verdict(c.url.as_str(), expected.as_str(), text.as_str())
                    };
                    match verdict {
                        None => self.finish_probe(idx, previous, Status::Okay, None, now),
                        Some(d) => self.finish_probe(idx, previous, Status::Error, Some(d), now),
                    }
                },
            },
            (Phase::AwaitAppend { idx, previous, status, details }, Event::Appended(r)) => match r {
                Err(_) => self.advance(idx + 1),
                Ok(()) => {
                    let notify = should_notify(&self.checks[idx].hook, status, previous);
                    if notify {
                        let hook = match &self.checks[idx].hook {
                            Some(h) => h.clone(),
                            None => unreached(),
                        };
                        let payload = WebhookData::new(status, details, self.checks[idx].clone());
                        self.phase = Phase::AwaitPost { idx };
                        Action::Post { hook, payload }
                    } else {
                        self.advance(idx + 1)
                    }
                },
            },
            (Phase::AwaitPost { idx }, Event::Posted(_)) => self.advance(idx + 1),
            (Phase::Sleeping, Event::Slept) => {
                self.phase = Phase::Listing;
                Action::ListChecks
            },
            _ => unreached(),
        }
    }
}

} // verus!
