//! The Learning Updater's graph side: turning extracted facts into memory
//! nodes and committing them into a user's graph.
//!
//! Node ids embed the user identity and the commit time, so every fact of
//! one commit shares one id; insertion overwrites on an id collision rather
//! than failing, so the last remembered fact of a commit wins.
use vstd::prelude::*;

use crate::model::{
    fact_node_type, fact_views, node_views, ExtractedFact, FactType, FactV, MemoryNode,
    MemoryNodeType, MemoryNodeV, UserGraph,
};
use crate::text::{dec_rep, u64_to_string};

verus! {

/// Some node carries the id `id`.
pub open spec fn has_node_id(nodes: Seq<MemoryNodeV>, id: Seq<char>) -> bool {
    exists|i: int| 0 <= i < nodes.len() && (#[trigger] nodes[i]).id == id
}

/// The index of the node carrying `id` (meaningful only when `has_node_id`).
pub open spec fn node_id_idx(nodes: Seq<MemoryNodeV>, id: Seq<char>) -> int {
    choose|i: int| 0 <= i < nodes.len() && (#[trigger] nodes[i]).id == id
}

/// Insertion into the node list: overwrite the node with the same id when
/// there is one, append otherwise.
pub open spec fn insert_node(nodes: Seq<MemoryNodeV>, n: MemoryNodeV) -> Seq<MemoryNodeV> {
    if has_node_id(nodes, n.id) {
        nodes.update(node_id_idx(nodes, n.id), n)
    } else {
        nodes.push(n)
    }
}

/// The memory node one remembered fact becomes: type mapped one-to-one,
/// importance inherited from the confidence, both timestamps the commit
/// time, accessed once, no tags yet.
pub open spec fn node_of_fact(f: FactV, id: Seq<char>, now: u64) -> MemoryNodeV {
    MemoryNodeV {
        id: id,
        content: f.fact,
        node_type: fact_node_type(f.fact_type),
        importance_score: f.confidence,
        created_at: now,
        last_accessed: now,
        access_count: 1,
        tags: Seq::empty(),
        related_conversations: Seq::empty(),
    }
}

/// The id every node of one commit carries.
pub open spec fn commit_node_id(u: Seq<char>, now: u64) -> Seq<char> {
    "memory_"@ + u + "_"@ + dec_rep(now as int)
}

/// One fact's effect on the node list: remembered facts are inserted, the
/// rest leave no node.
pub open spec fn commit_step(nodes: Seq<MemoryNodeV>, f: FactV, id: Seq<char>, now: u64) -> Seq<
    MemoryNodeV,
> {
    if f.should_remember {
        insert_node(nodes, node_of_fact(f, id, now))
    } else {
        nodes
    }
}

/// The node list after committing a whole fact list, in order.
pub open spec fn committed_nodes(
    nodes: Seq<MemoryNodeV>,
    facts: Seq<FactV>,
    id: Seq<char>,
    now: u64,
) -> Seq<MemoryNodeV>
    decreases facts.len(),
{
    if facts.len() == 0 {
        nodes
    } else {
        committed_nodes(commit_step(nodes, facts[0], id, now), facts.drop_first(), id, now)
    }
}

/// Committing one more fact at the end is one more step on the result.
pub proof fn lemma_committed_snoc(
    nodes: Seq<MemoryNodeV>,
    facts: Seq<FactV>,
    f: FactV,
    id: Seq<char>,
    now: u64,
)
    ensures
        committed_nodes(nodes, facts.push(f), id, now) == commit_step(
            committed_nodes(nodes, facts, id, now),
            f,
            id,
            now,
        ),
    decreases facts.len(),
{
    if facts.len() == 0 {
        let e = Seq::<FactV>::empty();
        assert(facts.push(f)[0] == f);
        assert(facts.push(f).drop_first() =~= e);
        assert(committed_nodes(commit_step(nodes, f, id, now), e, id, now) == commit_step(
            nodes,
            f,
            id,
            now,
        ));
        assert(committed_nodes(nodes, facts, id, now) == nodes);
    } else {
        assert(facts.push(f)[0] == facts[0]);
        assert(facts.push(f).drop_first() =~= facts.drop_first().push(f));
        lemma_committed_snoc(commit_step(nodes, facts[0], id, now), facts.drop_first(), f, id, now);
        assert(committed_nodes(nodes, facts, id, now) == committed_nodes(
            commit_step(nodes, facts[0], id, now),
            facts.drop_first(),
            id,
            now,
        ));
        assert(committed_nodes(nodes, facts.push(f), id, now) == committed_nodes(
            commit_step(nodes, facts[0], id, now),
            facts.drop_first().push(f),
            id,
            now,
        ));
    }
}

/// Builds the id shared by the nodes of one commit.
pub fn build_node_id(user: &String, now: u64) -> (r: String)
    ensures
        r@ == commit_node_id(user@, now),
{
    let mut s = String::from_str("memory_");
    s.append(user.as_str());
    s.append("_");
    let t = u64_to_string(now);
    s.append(t.as_str());
    s
}

impl FactType {
    /// The node type a fact of this type becomes.
    pub fn to_node_type(&self) -> (r: MemoryNodeType)
        ensures
            r == fact_node_type(*self),
    {
        match self {
            FactType::PersonalInfo => MemoryNodeType::Fact,
            FactType::Preference => MemoryNodeType::Preference,
            FactType::Goal => MemoryNodeType::Goal,
            FactType::Relationship => MemoryNodeType::Relationship,
            FactType::Experience => MemoryNodeType::Experience,
            FactType::Knowledge => MemoryNodeType::Knowledge,
        }
    }
}

/// Inserts a node, overwriting the node with the same id if one exists;
/// keeps ids unique and every node well formed.
fn insert_or_replace_node(nodes: &mut Vec<MemoryNode>, n: MemoryNode)
    requires
        forall|i: int, j: int|
            0 <= i < j < old(nodes)@.len() ==> (#[trigger] old(nodes)@[i]).id@ != (
            #[trigger] old(nodes)@[j]).id@,
        forall|i: int| 0 <= i < old(nodes)@.len() ==> (#[trigger] old(nodes)@[i]).wf(),
        n.wf(),
    ensures
        node_views(final(nodes)@) == insert_node(node_views(old(nodes)@), n@),
        forall|i: int, j: int|
            0 <= i < j < final(nodes)@.len() ==> (#[trigger] final(nodes)@[i]).id@ != (
            #[trigger] final(nodes)@[j]).id@,
        forall|i: int| 0 <= i < final(nodes)@.len() ==> (#[trigger] final(nodes)@[i]).wf(),
        final(nodes)@.len() == if has_node_id(node_views(old(nodes)@), n@.id) {
            old(nodes)@.len() as int
        } else {
            old(nodes)@.len() + 1int
        },
        forall|i: int|
            0 <= i < final(nodes)@.len() ==> (#[trigger] final(nodes)@[i]).id@ == (
            if i < old(nodes)@.len() {
                old(nodes)@[i].id@
            } else {
                n.id@
            }),
{
    let ghost pre = nodes@;
    let mut i: usize = 0;
    let mut found: Option<usize> = None;
    while i < nodes.len() && found.is_none()
        invariant
            i <= nodes@.len(),
            nodes@ == pre,
            match found {
                Some(k) => k < nodes@.len() && nodes@[k as int].id@ == n.id@,
                None => forall|j: int| 0 <= j < i ==> (#[trigger] nodes@[j]).id@ != n.id@,
            },
        decreases nodes@.len() - i + (if found is None {
            1int
        } else {
            0int
        }),
    {
        if nodes[i].id == n.id {
            found = Some(i);
        } else {
            i = i + 1;
        }
    }
    match found {
        Some(k) => {
            proof {
                assert(node_views(pre)[k as int].id == n@.id);
                assert(has_node_id(node_views(pre), n@.id));
                let k2 = node_id_idx(node_views(pre), n@.id);
                if k2 != k as int {
                    assert(pre[k2].id@ != pre[k as int].id@);
                }
            }
            let slot = &mut nodes[k];
            *slot = n;
            proof {
                assert(node_views(nodes@) =~= insert_node(node_views(pre), n@));
                assert forall|a: int, b: int|
                    0 <= a < b < nodes@.len() implies (#[trigger] nodes@[a]).id@ != (
                #[trigger] nodes@[b]).id@ by {
                    assert(pre[a].id@ != pre[b].id@);
                }
                assert forall|a: int| 0 <= a < nodes@.len() implies (#[trigger] nodes@[a]).wf() by {
                    if a != k {
                        assert(nodes@[a] == pre[a]);
                    }
                }
            }
        },
        None => {
            proof {
                assert forall|j: int|
                    0 <= j < node_views(pre).len() implies (#[trigger] node_views(pre)[j]).id
                    != n@.id by {
                    assert(pre[j].id@ != n.id@);
                }
                assert(!has_node_id(node_views(pre), n@.id));
            }
            nodes.push(n);
            proof {
                assert(node_views(nodes@) =~= insert_node(node_views(pre), n@));
                assert forall|a: int, b: int|
                    0 <= a < b < nodes@.len() implies (#[trigger] nodes@[a]).id@ != (
                #[trigger] nodes@[b]).id@ by {
                    if b < nodes@.len() - 1 {
                        assert(pre[a].id@ != pre[b].id@);
                    } else {
                        assert(nodes@[a] == pre[a]);
                        assert(pre[a].id@ != n.id@);
                    }
                }
            }
        },
    }
}

/// What one commit does to a graph: the extracted facts become nodes, the
/// interaction count rises by one (saturating), the update time is set, and
/// nothing else moves.
pub open spec fn learned(
    pre: UserGraph,
    post: UserGraph,
    facts: Seq<FactV>,
    id: Seq<char>,
    now: u64,
) -> bool {
    &&& node_views(post.memory_nodes@) == committed_nodes(
        node_views(pre.memory_nodes@),
        facts,
        id,
        now,
    )
    &&& post.learning_patterns.interaction_count == (
    if pre.learning_patterns.interaction_count < u32::MAX {
        pre.learning_patterns.interaction_count + 1
    } else {
        pre.learning_patterns.interaction_count as int
    })
    &&& post.learning_patterns.topics_discussed == pre.learning_patterns.topics_discussed
    &&& post.learning_patterns.preferred_response_length
        == pre.learning_patterns.preferred_response_length
    &&& post.learning_patterns.question_asking_frequency
        == pre.learning_patterns.question_asking_frequency
    &&& post.learning_patterns.learning_speed == pre.learning_patterns.learning_speed
    &&& post.learning_patterns.last_major_update == pre.learning_patterns.last_major_update
    &&& post.last_updated == now
    &&& post.user_profile == pre.user_profile
    &&& post.relationships == pre.relationships
    &&& post.context_threads == pre.context_threads
}

/// Commits one message's extracted facts into the graph.
pub fn apply_learning(g: &mut UserGraph, facts: &Vec<ExtractedFact>, id: &String, now: u64)
    requires
        old(g).wf(),
        forall|j: int|
            0 <= j < facts@.len() ==> (#[trigger] facts@[j]).confidence <= 100,
    ensures
        final(g).wf(),
        learned(*old(g), *final(g), fact_views(facts@), id@, now),
{
    let ghost orig = node_views(old(g).memory_nodes@);
    let mut k: usize = 0;
    proof {
        assert(fact_views(facts@).take(0) =~= Seq::<FactV>::empty());
    }
    while k < facts.len()
        invariant
            k <= facts@.len(),
            forall|j: int| 0 <= j < facts@.len() ==> (#[trigger] facts@[j]).confidence <= 100,
            orig == node_views(old(g).memory_nodes@),
            node_views(g.memory_nodes@) == committed_nodes(
                orig,
                fact_views(facts@).take(k as int),
                id@,
                now,
            ),
            forall|i: int, j: int|
                0 <= i < j < g.memory_nodes@.len() ==> (#[trigger] g.memory_nodes@[i]).id@ != (
                #[trigger] g.memory_nodes@[j]).id@,
            forall|i: int| 0 <= i < g.memory_nodes@.len() ==> (#[trigger] g.memory_nodes@[i]).wf(),
            g.memory_nodes@.len() >= old(g).memory_nodes@.len(),
            forall|j: int|
                0 <= j < old(g).memory_nodes@.len() ==> (#[trigger] g.memory_nodes@[j]).id@ == old(
                g).memory_nodes@[j].id@,
            g.user_profile == old(g).user_profile,
            g.relationships == old(g).relationships,
            g.learning_patterns == old(g).learning_patterns,
            g.context_threads == old(g).context_threads,
            g.last_updated == old(g).last_updated,
        decreases facts@.len() - k,
    {
        let ghost taken = fact_views(facts@).take(k as int);
        if facts[k].should_remember {
            let node = MemoryNode {
                id: id.clone(),
                content: facts[k].fact.clone(),
                node_type: facts[k].fact_type.to_node_type(),
                importance_score: facts[k].confidence,
                created_at: now,
                last_accessed: now,
                access_count: 1,
                tags: Vec::new(),
                related_conversations: Vec::new(),
            };
            proof {
                assert(node@ =~= node_of_fact(facts@[k as int]@, id@, now));
            }
            let ghost before = node_views(g.memory_nodes@);
            insert_or_replace_node(&mut g.memory_nodes, node);
            proof {
                lemma_committed_snoc(orig, taken, facts@[k as int]@, id@, now);
                assert(fact_views(facts@).take(k + 1) =~= taken.push(facts@[k as int]@));
            }
        } else {
            proof {
                lemma_committed_snoc(orig, taken, facts@[k as int]@, id@, now);
                assert(fact_views(facts@).take(k + 1) =~= taken.push(facts@[k as int]@));
            }
        }
        k = k + 1;
    }
    proof {
        assert(fact_views(facts@).take(facts@.len() as int) =~= fact_views(facts@));
    }
    if g.learning_patterns.interaction_count < u32::MAX {
        g.learning_patterns.interaction_count = g.learning_patterns.interaction_count + 1;
    }
    g.last_updated = now;
    proof {
        assert forall|i: int|
            0 <= i < g.relationships@.len() implies (exists|m: int|
            g.node_has_id(m, (#[trigger] g.relationships@[i]).from_node@)) && (exists|m: int|
            g.node_has_id(m, g.relationships@[i].to_node@)) by {
            let e = g.relationships@[i];
            assert(old(g).relationships@[i] == e);
            assert((exists|m: int| old(g).node_has_id(m, e.from_node@)) && (exists|m: int|
                old(g).node_has_id(m, e.to_node@)));
            let m1 = choose|m: int| old(g).node_has_id(m, e.from_node@);
            let m2 = choose|m: int| old(g).node_has_id(m, e.to_node@);
            assert(g.node_has_id(m1, e.from_node@));
            assert(g.node_has_id(m2, e.to_node@));
        }
    }
}

} // verus!
