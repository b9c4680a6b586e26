//! Verified core of an HTTP uptime monitor.
//!
//! The library holds the decision logic of the monitoring loop: the
//! schedule rule that decides whether a check is due, the classification
//! of a probe's HTTP response as a pass or a failure with a reason, the
//! notifier rule that suppresses repeated all-clear webhook calls, and the
//! cycle engine that drives one check at a time through the due decision, probe,
//! persistence and notification. The surrounding process performs the
//! store reads, the network calls and the sleeping, and feeds their
//! results back to the engine as events.

pub mod admin;
pub mod jsontext;
pub mod models;
pub mod monitor;
pub mod notify;
pub mod probe;
pub mod schedule;
pub mod textfmt;
