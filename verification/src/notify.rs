//! The notifier rule: whether a webhook call is warranted for a
//! just-recorded outcome.
//!
//! A check without a hook never notifies. With a hook, a call is made
//! exactly when the new status or the previous one is `Error`; a check
//! whose current and previous outcomes are both `Okay` stays silent, which
//! suppresses repeated all-clear noise. A check with no previous record is
//! treated as previously not in error.

use vstd::prelude::*;

use crate::models::Status;

verus! {

/// Whether the webhook fires: a hook must be configured, and the new
/// status or the previous one must be `Error`. This is silent only on an
/// `Okay` outcome that follows an `Okay` (or absent) one, and so fires on
/// each failure, on each repeated failure, and on a recovery.
pub open spec fn spec_should_notify(
    hook: Option<Seq<char>>,
    status: Status,
    previous: Option<Status>,
) -> bool {
    &&& hook is Some
    &&& (status is Error || previous == Some(Status::Error))
}

pub fn should_notify(hook: &Option<String>, status: Status, previous: Option<Status>) -> (r: bool)
    ensures
        r == spec_should_notify(spec_opt_view(*hook), status, previous),
{
    hook.is_some() && (matches!(status, Status::Error) || matches!(
        previous,
        Some(Status::Error),
    ))
}

/// The view of an optional string.
pub open spec fn spec_opt_view(o: Option<String>) -> Option<Seq<char>> {
    match o {
        Some(s) => Some(s@),
        None => None,
    }
}

/// The notifier fires exactly when the new status is `Error` or the
/// previous one was; with no hook it never fires, and on an `Okay`
/// outcome following an `Okay` or absent one it is silent.
pub proof fn lemma_notify_exactly_on_error_or_recovery(
    hook: Option<Seq<char>>,
    status: Status,
    previous: Option<Status>,
)
    ensures
        spec_should_notify(hook, status, previous) <==> (hook is Some && (status is Error
            || previous == Some(Status::Error))),
        hook is None ==> !spec_should_notify(hook, status, previous),
        (status is Okay && previous != Some(Status::Error)) ==> !spec_should_notify(
            hook,
            status,
            previous,
        ),
{
}

} // verus!
