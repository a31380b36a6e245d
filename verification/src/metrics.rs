//! Profile Metrics: pure, read-only calculations recomputed on demand from a
//! user's graph. Fractional results are reported in thousandths, so the
//! floating-point formulas of the dashboard become exact integer arithmetic:
//! a memory strength of `0.012` is reported as `12`.
use vstd::prelude::*;

use crate::model::{UserGraph, UserProfile};
use crate::NANOS_PER_DAY;

verus! {

/// Memory strength in thousandths:
/// `(node_count * 0.4 + edge_count * 0.3 + interaction_count * 0.3) / 100`,
/// unbounded above.
pub open spec fn memory_strength_milli(g: UserGraph) -> int {
    4 * g.memory_nodes@.len() + 3 * g.relationships@.len() + 3 * (
    g.learning_patterns.interaction_count as int)
}

/// Profile completeness in thousandths: a quarter each for a name, at least
/// one interest, at least one goal, and a work context.
pub open spec fn profile_completeness_milli(p: UserProfile) -> int {
    (if p.name is Some {
        250int
    } else {
        0int
    }) + (if p.interests@.len() > 0 {
        250int
    } else {
        0int
    }) + (if p.goals@.len() > 0 {
        250int
    } else {
        0int
    }) + (if p.work_context is Some {
        250int
    } else {
        0int
    })
}

/// Learning progress in thousandths: the mean of profile completeness and
/// the interaction count capped at one hundred.
pub open spec fn learning_progress_milli(g: UserGraph) -> int {
    (profile_completeness_milli(g.user_profile) + 10 * (if g.learning_patterns.interaction_count
        < 100 {
        g.learning_patterns.interaction_count as int
    } else {
        100int
    })) / 2
}

/// The earliest node creation time, or `now` when the graph holds no node.
pub open spec fn earliest_creation(nodes: Seq<crate::model::MemoryNode>, now: u64) -> u64
    decreases nodes.len(),
{
    if nodes.len() == 0 {
        now
    } else {
        let rest = earliest_creation(nodes.drop_first(), now);
        if nodes[0].created_at < rest {
            nodes[0].created_at
        } else {
            rest
        }
    }
}

/// Tenure in whole days: the time since the earliest memory node, zero when
/// there is none (now minus now) or when the earliest node lies in the
/// future.
pub open spec fn tenure_days(g: UserGraph, now: u64) -> int {
    let first = earliest_creation(g.memory_nodes@, now);
    if first <= now {
        (now - first) / (NANOS_PER_DAY as int)
    } else {
        0int
    }
}

/// Clamping: profile completeness and learning progress always fall in
/// `[0, 1]` — here `0..=1000` thousandths — whatever state any sequence of
/// updates has produced.
pub proof fn lemma_metrics_clamped(g: UserGraph)
    ensures
        0 <= profile_completeness_milli(g.user_profile) <= 1000,
        0 <= learning_progress_milli(g) <= 1000,
        0 <= memory_strength_milli(g),
{
}

/// Tenure with empty memory: a graph with no memory nodes reports zero
/// tenure, whatever `now` is.
pub proof fn lemma_tenure_empty(g: UserGraph, now: u64)
    requires
        g.memory_nodes@.len() == 0,
    ensures
        tenure_days(g, now) == 0,
{
}

/// Computes memory strength in thousandths, saturating at `u64::MAX`.
pub fn calculate_memory_strength(graph: Option<&UserGraph>) -> (r: u64)
    ensures
        match graph {
            Some(g) => (if memory_strength_milli(*g) <= u64::MAX {
                r == memory_strength_milli(*g)
            } else {
                r == u64::MAX
            }),
            None => r == 0,
        },
{
    match graph {
        Some(g) => {
            let n = g.memory_nodes.len() as u128;
            let e = g.relationships.len() as u128;
            let i = g.learning_patterns.interaction_count as u128;
            let m: u128 = 4 * n + 3 * e + 3 * i;
            if m <= u64::MAX as u128 {
                m as u64
            } else {
                u64::MAX
            }
        },
        None => 0,
    }
}

/// Computes profile completeness in thousandths; always clamped.
pub fn calculate_profile_completeness(profile: &UserProfile) -> (r: u32)
    ensures
        r == profile_completeness_milli(*profile),
        r <= 1000,
{
    let mut score: u32 = 0;
    if profile.name.is_some() {
        score = score + 250;
    }
    if profile.interests.len() > 0 {
        score = score + 250;
    }
    if profile.goals.len() > 0 {
        score = score + 250;
    }
    if profile.work_context.is_some() {
        score = score + 250;
    }
    score
}

/// Computes learning progress in thousandths; always clamped.
pub fn calculate_learning_progress(graph: Option<&UserGraph>) -> (r: u32)
    ensures
        match graph {
            Some(g) => r == learning_progress_milli(*g),
            None => r == 0,
        },
        r <= 1000,
{
    match graph {
        Some(g) => {
            let completeness = calculate_profile_completeness(&g.user_profile);
            let ic = g.learning_patterns.interaction_count;
            let interaction_factor: u32 = if ic < 100 {
                10 * ic
            } else {
                1000
            };
            (completeness + interaction_factor) / 2
        },
        None => 0,
    }
}

/// Computes the tenure in whole days since the earliest memory node.
pub fn calculate_days_since_first_interaction(graph: Option<&UserGraph>, now: u64) -> (r: u64)
    ensures
        match graph {
            Some(g) => r == tenure_days(*g, now),
            None => r == 0,
        },
{
    match graph {
        Some(g) => {
            let mut first: u64 = now;
            let mut i: usize = g.memory_nodes.len();
            while i > 0
                invariant
                    i <= g.memory_nodes@.len(),
                    first == earliest_creation(g.memory_nodes@.skip(i as int), now),
                decreases i,
            {
                i = i - 1;
                let c = g.memory_nodes[i].created_at;
                proof {
                    assert(g.memory_nodes@.skip(i as int).drop_first() =~= g.memory_nodes@.skip(
                        i + 1,
                    ));
                }
                if c < first {
                    first = c;
                }
            }
            proof {
                assert(g.memory_nodes@.skip(0) =~= g.memory_nodes@);
            }
            if first <= now {
                (now - first) / NANOS_PER_DAY
            } else {
                0
            }
        },
        None => 0,
    }
}

} // verus!
