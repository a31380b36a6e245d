//! A per-user, incrementally learned knowledge graph that personalizes
//! responses to natural-language queries: it stores discrete memory facts
//! extracted from conversation, retrieves the subset relevant to a new query,
//! and selects a response strategy based on how much is known about the user.
//!
//! Scores that range over `[0, 1]` (confidence, importance, progress) are
//! held in hundredths (`0..=100`); derived metrics are reported in
//! thousandths (`0..=1000` where bounded). Timestamps are nanoseconds.
use vstd::prelude::*;

pub mod extract;
pub mod learn;
pub mod metrics;
pub mod model;
pub mod prompt;
pub mod retrieve;
pub mod store;
pub mod strategy;
pub mod text;

verus! {

/// Nanoseconds in one day, for tenure calculations.
pub const NANOS_PER_DAY: u64 = 24 * 60 * 60 * 1_000_000_000;

} // verus!
