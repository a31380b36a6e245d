//! The Relevance Retriever: a plain containment filter. A node is relevant
//! to a query when its case-folded content contains the case-folded query as
//! a substring, or one of its case-folded tags is itself a substring of the
//! case-folded query. The first five matches are returned in node order;
//! there is no ranking beyond match or no match, which is this retrieval's
//! known precision ceiling.
use vstd::prelude::*;

use crate::model::{node_views, MemoryNode, MemoryNodeV};
use crate::text::{contains_str, contains_sub, lower, match_at, to_lower};

verus! {

/// How many memory nodes one retrieval returns at most.
pub const RETRIEVAL_LIMIT: usize = 5;

/// Whether a node is relevant to the query.
pub open spec fn node_matches(n: MemoryNodeV, q: Seq<char>) -> bool {
    ||| contains_sub(lower(n.content), lower(q))
    ||| exists|t: int| 0 <= t < n.tags.len() && contains_sub(lower(q), lower(#[trigger] n.tags[t]))
}

/// The first `k` nodes of `nodes` that match `q`, in order.
pub open spec fn retrieve_from(nodes: Seq<MemoryNodeV>, q: Seq<char>, k: nat) -> Seq<MemoryNodeV>
    decreases nodes.len(),
{
    if nodes.len() == 0 || k == 0 {
        Seq::empty()
    } else if node_matches(nodes[0], q) {
        seq![nodes[0]] + retrieve_from(nodes.drop_first(), q, (k - 1) as nat)
    } else {
        retrieve_from(nodes.drop_first(), q, k)
    }
}

/// The memories retrieved for a query: the first five matching nodes.
pub open spec fn relevant_memories(nodes: Seq<MemoryNodeV>, q: Seq<char>) -> Seq<MemoryNodeV> {
    retrieve_from(nodes, q, RETRIEVAL_LIMIT as nat)
}

/// Everything retrieved matches the query, comes from the node list, and no
/// more than five nodes come back.
pub proof fn lemma_retrieved_are_relevant(nodes: Seq<MemoryNodeV>, q: Seq<char>, k: nat)
    ensures
        retrieve_from(nodes, q, k).len() <= k,
        forall|j: int|
            0 <= j < retrieve_from(nodes, q, k).len() ==> node_matches(
                #[trigger] retrieve_from(nodes, q, k)[j],
                q,
            ) && nodes.contains(retrieve_from(nodes, q, k)[j]),
    decreases nodes.len(),
{
    if nodes.len() == 0 || k == 0 {
    } else {
        if node_matches(nodes[0], q) {
            lemma_retrieved_are_relevant(nodes.drop_first(), q, (k - 1) as nat);
        } else {
            lemma_retrieved_are_relevant(nodes.drop_first(), q, k);
        }
        assert forall|x: MemoryNodeV| nodes.drop_first().contains(x) implies nodes.contains(
            x,
        ) by {
            let i = choose|i: int| 0 <= i < nodes.drop_first().len() && nodes.drop_first()[i] == x;
            assert(nodes[i + 1] == x);
        }
    }
}

/// A query that some node matches never comes back empty-handed: with the
/// memory-available gate this grounds the answer in at least one memory.
pub proof fn lemma_retrieve_finds(nodes: Seq<MemoryNodeV>, q: Seq<char>, k: nat)
    requires
        k > 0,
        exists|i: int| 0 <= i < nodes.len() && node_matches(#[trigger] nodes[i], q),
    ensures
        retrieve_from(nodes, q, k).len() > 0,
    decreases nodes.len(),
{
    let i = choose|i: int| 0 <= i < nodes.len() && node_matches(#[trigger] nodes[i], q);
    if !node_matches(nodes[0], q) {
        assert(nodes.drop_first()[i - 1] == nodes[i]);
        lemma_retrieve_finds(nodes.drop_first(), q, k);
    }
}

fn node_matches_exec(n: &MemoryNode, query: &str, lq: &str) -> (b: bool)
    requires
        lq@ == lower(query@),
    ensures
        b == node_matches(n@, query@),
{
    let lc = to_lower(n.content.as_str());
    if contains_str(lc.as_str(), lq) {
        proof {
            let w = choose|i: int| match_at(lc@, lq@, i);
            assert(match_at(lower(n@.content), lower(query@), w));
        }
        return true;
    }
    let mut t: usize = 0;
    while t < n.tags.len()
        invariant
            t <= n.tags@.len(),
            lq@ == lower(query@),
            n@.tags == n.tags@.map_values(|s: String| s@),
            forall|j: int| 0 <= j < t ==> !contains_sub(lower(query@), lower(#[trigger] n@.tags[j])),
        decreases n.tags@.len() - t,
    {
        proof {
            assert(n@.tags[t as int] == n.tags@[t as int]@);
        }
        let lt = to_lower(n.tags[t].as_str());
        if contains_str(lq, lt.as_str()) {
            proof {
                let w = choose|i: int| match_at(lq@, lt@, i);
                assert(match_at(lower(query@), lower(n@.tags[t as int]), w));
            }
            return true;
        }
        proof {
            assert forall|i: int| !match_at(lower(query@), lower(n@.tags[t as int]), i) by {
                assert(!match_at(lq@, lt@, i));
            }
        }
        t = t + 1;
    }
    false
}

/// Retrieves the first five memory nodes relevant to the query, in the
/// graph's node order.
pub fn retrieve_relevant(nodes: &Vec<MemoryNode>, query: &str) -> (r: Vec<MemoryNode>)
    ensures
        node_views(r@) == relevant_memories(node_views(nodes@), query@),
        r@.len() <= RETRIEVAL_LIMIT,
{
    let lq = to_lower(query);
    let mut r: Vec<MemoryNode> = Vec::new();
    let mut i: usize = 0;
    proof {
        assert(node_views(nodes@).skip(0) =~= node_views(nodes@));
    }
    while i < nodes.len() && r.len() < RETRIEVAL_LIMIT
        invariant
            i <= nodes@.len(),
            r@.len() <= RETRIEVAL_LIMIT,
            lq@ == lower(query@),
            relevant_memories(node_views(nodes@), query@) =~= node_views(r@) + retrieve_from(
                node_views(nodes@).skip(i as int),
                query@,
                (RETRIEVAL_LIMIT - r@.len()) as nat,
            ),
        decreases nodes@.len() - i,
    {
        let ghost pre = node_views(nodes@).skip(i as int);
        proof {
            assert(pre[0] == node_views(nodes@)[i as int]);
            assert(pre.drop_first() =~= node_views(nodes@).skip(i + 1));
            assert(node_views(nodes@)[i as int] == nodes@[i as int]@);
        }
        if node_matches_exec(&nodes[i], query, lq.as_str()) {
            let ghost rpre = node_views(r@);
            r.push(nodes[i].clone());
            proof {
                assert(node_views(r@) =~= rpre.push(nodes@[i as int]@));
                assert(seq![pre[0]] + retrieve_from(
                    pre.drop_first(),
                    query@,
                    (RETRIEVAL_LIMIT - rpre.len() - 1) as nat,
                ) =~= seq![pre[0]] + retrieve_from(
                    node_views(nodes@).skip(i + 1),
                    query@,
                    (RETRIEVAL_LIMIT - rpre.len() - 1) as nat,
                ));
            }
        }
        i = i + 1;
    }
    proof {
        if i == nodes@.len() {
            assert(node_views(nodes@).skip(i as int).len() == 0);
        }
        assert(node_views(r@) =~= relevant_memories(node_views(nodes@), query@));
    }
    r
}

} // verus!
