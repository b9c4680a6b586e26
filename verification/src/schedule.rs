//! The schedule rule: decides, from a check's frequency and its most
//! recent history record, whether the check is due for execution now.
//!
//! Each frequency maps to a minimum re-probe interval (one hour, one day,
//! one week); a check with no prior record is always due, and otherwise it
//! is due exactly when at least that interval has elapsed since the last
//! record, boundary included.

use vstd::prelude::*;

use crate::models::CheckHistory;
use crate::models::Frequency;

verus! {

/// Minimum number of seconds between two probes of a check, by frequency.
pub open spec fn spec_interval_secs(f: Frequency) -> int {
    match f {
        Frequency::Hourly => 3600,
        Frequency::Daily => 86400,
        Frequency::Weekly => 604800,
    }
}

pub fn interval_secs(f: Frequency) -> (r: i64)
    ensures
        r == spec_interval_secs(f),
{
    match f {
        Frequency::Hourly => 3600,
        Frequency::Daily => 86400,
        Frequency::Weekly => 604800,
    }
}

/// Whether a check is due: always with no prior record, and otherwise
/// exactly when the elapsed time since the latest record reaches the
/// frequency's interval.
pub open spec fn spec_due(f: Frequency, latest: Option<CheckHistory>, now: int) -> bool {
    match latest {
        None => true,
        Some(h) => now - h.created_at >= spec_interval_secs(f),
    }
}

/// The due decision. Computed without overflow: the comparison
/// `now - last >= interval` is taken as `now >= last + interval`, and a
/// sum past the machine range can only mean "not yet due".
pub fn is_due(f: Frequency, latest: &Option<CheckHistory>, now: i64) -> (r: bool)
    ensures
        r == spec_due(f, *latest, now as int),
{
    match latest {
        None => true,
        Some(h) => {
            let interval: i64 = interval_secs(f);
            match h.created_at.checked_add(interval) {
                Some(threshold) => now >= threshold,
                None => false,
            }
        },
    }
}

/// A check that was never probed is due, whatever its frequency and
/// whatever the current time.
pub proof fn lemma_no_history_always_due(f: Frequency, now: int)
    ensures
        spec_due(f, None, now),
{
}

/// With a prior record, due-ness is exactly the comparison of the elapsed
/// time against the frequency's own interval: one hour for hourly checks,
/// one day for daily ones, one week for weekly ones. In particular an
/// hourly check is held to one hour, not by any other class's interval,
/// and elapsed time exactly equal to the interval counts as due.
pub proof fn lemma_due_iff_elapsed_reaches_interval(f: Frequency, h: CheckHistory, now: int)
    ensures
        spec_due(f, Some(h), now) <==> now - h.created_at >= spec_interval_secs(f),
        f is Hourly ==> (spec_due(f, Some(h), now) <==> now - h.created_at >= 3600),
        f is Daily ==> (spec_due(f, Some(h), now) <==> now - h.created_at >= 86400),
        f is Weekly ==> (spec_due(f, Some(h), now) <==> now - h.created_at >= 604800),
{
}

/// The due decision is a function of its inputs alone: two decisions taken with
/// the same frequency, the same latest record and the same clock reading
/// agree.
pub proof fn lemma_due_decision_idempotent(
    f1: Frequency,
    latest1: Option<CheckHistory>,
    now1: int,
    f2: Frequency,
    latest2: Option<CheckHistory>,
    now2: int,
)
    requires
        f1 == f2,
        latest1 == latest2,
        now1 == now2,
    ensures
        spec_due(f1, latest1, now1) == spec_due(f2, latest2, now2),
{
}

} // verus!
