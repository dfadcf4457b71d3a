//! Core of a phi accrual failure detector for one monitored peer.
//!
//! The heartbeat window keeps no history: it counts the intervals folded into
//! the running statistics, caps that count, and remembers when the last
//! heartbeat arrived. Each accepted heartbeat yields a [`window::Fold`] that
//! says how the running sums of the statistics are to be updated.
//!
//! The inverse lookup from a suspicion threshold to a deadline is a bisection
//! over whole milliseconds, driven by a monotone oracle.
pub mod search;
pub mod window;
