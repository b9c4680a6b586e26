use uptime_monitor::models::CheckHistory;
use uptime_monitor::models::Frequency;
use uptime_monitor::models::Status;
use uptime_monitor::schedule::interval_secs;
use uptime_monitor::schedule::is_due;

fn record_at(created_at: i64) -> CheckHistory {
    CheckHistory::new("c1".to_string(), Status::Okay, None, created_at)
}

#[test]
fn no_history_is_always_due() {
    assert!(is_due(Frequency::Hourly, &None, 0));
    assert!(is_due(Frequency::Daily, &None, 12345));
    assert!(is_due(Frequency::Weekly, &None, -50));
}

#[test]
fn interval_table() {
    assert_eq!(interval_secs(Frequency::Hourly), 3600);
    assert_eq!(interval_secs(Frequency::Daily), 86400);
    assert_eq!(interval_secs(Frequency::Weekly), 604800);
}

#[test]
fn hourly_due_iff_one_hour_elapsed() {
    let last = record_at(10_000);
    assert!(!is_due(Frequency::Hourly, &Some(record_at(10_000)), 10_000 + 3599));
    assert!(is_due(Frequency::Hourly, &Some(record_at(10_000)), 10_000 + 3600));
    assert!(is_due(Frequency::Hourly, &Some(last), 10_000 + 3601));
}

#[test]
fn daily_due_iff_one_day_elapsed() {
    assert!(!is_due(Frequency::Daily, &Some(record_at(500)), 500 + 86399));
    assert!(is_due(Frequency::Daily, &Some(record_at(500)), 500 + 86400));
}

#[test]
fn weekly_due_iff_one_week_elapsed() {
    assert!(!is_due(Frequency::Weekly, &Some(record_at(0)), 604799));
    assert!(is_due(Frequency::Weekly, &Some(record_at(0)), 604800));
}

#[test]
fn hourly_is_not_held_to_a_week() {
    // Two hours after the last record an hourly check must run again,
    // though a weekly one must not.
    let last = 1_000_000;
    let now = last + 7200;
    assert!(is_due(Frequency::Hourly, &Some(record_at(last)), now));
    assert!(!is_due(Frequency::Weekly, &Some(record_at(last)), now));
}

#[test]
fn clock_behind_last_record_is_not_due() {
    assert!(!is_due(Frequency::Hourly, &Some(record_at(5000)), 4000));
}

#[test]
fn near_overflow_threshold_is_not_due() {
    // The re-probe threshold would lie past the machine range: not due.
    assert!(!is_due(Frequency::Weekly, &Some(record_at(i64::MAX - 10)), i64::MAX));
}

#[test]
fn due_decision_is_repeatable() {
    let last = record_at(77_777);
    let now = 77_777 + 3600;
    let first = is_due(Frequency::Hourly, &Some(last), now);
    let again = is_due(Frequency::Hourly, &Some(record_at(77_777)), now);
    assert_eq!(first, again);
    assert!(first);
}
