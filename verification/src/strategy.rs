//! The Strategy Selector: a decision procedure over the user's graph, the
//! query and the retrieved memories. The rules are checked in a fixed order
//! and the first matching rule wins; selection is total and never fails.
use vstd::prelude::*;

use crate::model::{node_views, MemoryNode, MemoryNodeV, ResponseStrategy, StrategyV, UserGraph};
use crate::retrieve::{node_matches, retrieve_from};
use crate::text::{contains_str, contains_sub, lower, to_lower};

verus! {

/// Personal-context markers: a query holding one of these introduces
/// information rather than asking for it.
pub open spec fn has_personal_context(p: Seq<char>) -> bool {
    let lp = lower(p);
    ||| contains_sub(lp, "my name is"@)
    ||| contains_sub(lp, "i am"@)
    ||| contains_sub(lp, "i work"@)
    ||| contains_sub(lp, "i like"@)
    ||| contains_sub(lp, "i prefer"@)
    ||| contains_sub(lp, "i usually"@)
}

/// The topic shown back to the user: the first fifty characters of the
/// query, with a truncation marker only when the query is longer.
pub open spec fn topic_of(p: Seq<char>) -> Seq<char> {
    if p.len() > 50 {
        p.subrange(0, 50) + "..."@
    } else {
        p
    }
}

/// The clarifying question asked by the inquiry-first strategy.
pub open spec fn inquiry_question(p: Seq<char>) -> Seq<char> {
    "I want to give you the most helpful response. Could you provide a bit more context about "@
        + topic_of(p) + "?"@
}

/// The fixed rationale attached to a clarifying question.
pub open spec fn inquiry_rationale() -> Seq<char> {
    "This helps me understand your specific situation and give you better advice"@
}

/// The fixed suggestion of the learning-opportunity strategy.
pub open spec fn learning_suggestion() -> Seq<char> {
    "I can help you with this and remember your preferences for next time"@
}

/// The ids of the given memories, in order.
pub open spec fn memory_ids(mems: Seq<MemoryNodeV>) -> Seq<Seq<char>> {
    mems.map_values(|m: MemoryNodeV| m.id)
}

/// The whole decision procedure. Rule order: new-user gate, then
/// personal-reference gate, then memory-available gate, then the
/// learning-opportunity gate (a placeholder that always holds when reached);
/// a caller without a graph falls through to the default confident answer.
pub open spec fn strategy_of(g: Option<UserGraph>, prompt: Seq<char>, mems: Seq<MemoryNodeV>) -> StrategyV {
    match g {
        Some(kg) => {
            if kg.user_profile.name is None && kg.memory_nodes@.len() == 0 {
                StrategyV::ConfidentAnswer { confidence: 70, sources: Seq::empty() }
            } else if (contains_sub(lower(prompt), "my"@) || contains_sub(lower(prompt), "i "@))
                && mems.len() == 0 && !has_personal_context(prompt) {
                StrategyV::InquiryFirst {
                    question: inquiry_question(prompt),
                    why_asking: inquiry_rationale(),
                }
            } else if mems.len() > 0 {
                StrategyV::ConfidentAnswer { confidence: 80, sources: memory_ids(mems) }
            } else {
                StrategyV::LearningOpportunity { suggestion: learning_suggestion() }
            }
        },
        None => StrategyV::ConfidentAnswer { confidence: 60, sources: Seq::empty() },
    }
}

/// The graph behind an optional reference, for stating contracts.
pub open spec fn graph_of_opt(g: Option<&UserGraph>) -> Option<UserGraph> {
    match g {
        Some(kg) => Some(*kg),
        None => None,
    }
}

/// Whether the query holds a personal-context marker.
pub fn contains_personal_context(prompt: &str) -> (b: bool)
    ensures
        b == has_personal_context(prompt@),
{
    let lp = to_lower(prompt);
    let l = lp.as_str();
    contains_str(l, "my name is") || contains_str(l, "i am") || contains_str(l, "i work")
        || contains_str(l, "i like") || contains_str(l, "i prefer") || contains_str(l, "i usually")
}

/// The topic echoed in a clarifying question: at most the first fifty
/// characters of the query, with a trailing marker when truncated.
pub fn extract_topic_from_prompt(prompt: &str) -> (r: String)
    ensures
        r@ == topic_of(prompt@),
{
    let n = prompt.unicode_len();
    if n > 50 {
        let mut r = String::from_str(prompt.substring_char(0, 50));
        r.append("...");
        r
    } else {
        String::from_str(prompt)
    }
}

/// Whether a query is a chance to learn something new about the user. A
/// placeholder heuristic: it holds for every query, so the
/// learning-opportunity gate fires whenever it is reached.
pub fn is_learning_opportunity(_prompt: &str) -> (b: bool)
    ensures
        b,
{
    true
}

fn collect_memory_ids(mems: &Vec<MemoryNode>) -> (r: Vec<String>)
    ensures
        r@.map_values(|s: String| s@) == memory_ids(node_views(mems@)),
{
    let mut r: Vec<String> = Vec::new();
    let mut i: usize = 0;
    while i < mems.len()
        invariant
            i <= mems@.len(),
            r@.len() == i,
            forall|j: int| 0 <= j < i ==> (#[trigger] r@[j])@ == mems@[j].id@,
        decreases mems@.len() - i,
    {
        r.push(mems[i].id.clone());
        i = i + 1;
    }
    proof {
        assert forall|j: int| 0 <= j < mems@.len() implies memory_ids(node_views(mems@))[j]
            == mems@[j].id@ by {
            assert(node_views(mems@)[j] == mems@[j]@);
        }
        assert(r@.map_values(|s: String| s@) =~= memory_ids(node_views(mems@)));
    }
    r
}

/// Picks the response strategy for one query; total, first matching rule
/// wins.
pub fn determine_response_strategy(
    graph: Option<&UserGraph>,
    prompt: &str,
    relevant_memories: &Vec<MemoryNode>,
) -> (r: ResponseStrategy)
    ensures
        r@ == strategy_of(graph_of_opt(graph), prompt@, node_views(relevant_memories@)),
{
    match graph {
        Some(kg) => {
            if kg.user_profile.name.is_none() && kg.memory_nodes.len() == 0 {
                return ResponseStrategy::ConfidentAnswer { confidence: 70, sources: Vec::new() };
            }
            let lp = to_lower(prompt);
            if contains_str(lp.as_str(), "my") || contains_str(lp.as_str(), "i ") {
                if relevant_memories.len() == 0 && !contains_personal_context(prompt) {
                    let topic = extract_topic_from_prompt(prompt);
                    let mut question = String::from_str(
                        "I want to give you the most helpful response. Could you provide a bit more context about ",
                    );
                    question.append(topic.as_str());
                    question.append("?");
                    return ResponseStrategy::InquiryFirst {
                        question,
                        why_asking: String::from_str(
                            "This helps me understand your specific situation and give you better advice",
                        ),
                    };
                }
            }
            if relevant_memories.len() > 0 {
                return ResponseStrategy::ConfidentAnswer {
                    confidence: 80,
                    sources: collect_memory_ids(relevant_memories),
                };
            }
            if is_learning_opportunity(prompt) {
                return ResponseStrategy::LearningOpportunity {
                    suggestion: String::from_str(
                        "I can help you with this and remember your preferences for next time",
                    ),
                };
            }
            ResponseStrategy::ConfidentAnswer { confidence: 60, sources: Vec::new() }
        },
        None => ResponseStrategy::ConfidentAnswer { confidence: 60, sources: Vec::new() },
    }
}

/// Strategy precedence: for a user with zero memory nodes and no recorded
/// name, every query gets the confident answer at confidence `0.70`, even a
/// query holding "my" or "i " — the new-user gate is checked first.
pub proof fn lemma_new_user_gate(g: UserGraph, prompt: Seq<char>, mems: Seq<MemoryNodeV>)
    requires
        g.user_profile.name is None,
        g.memory_nodes@.len() == 0,
    ensures
        strategy_of(Some(g), prompt, mems) == (StrategyV::ConfidentAnswer {
            confidence: 70,
            sources: Seq::<Seq<char>>::empty(),
        }),
{
}

/// No relevant node means empty retrieval.
pub proof fn lemma_retrieve_none(nodes: Seq<MemoryNodeV>, q: Seq<char>, k: nat)
    requires
        forall|i: int| 0 <= i < nodes.len() ==> !node_matches(#[trigger] nodes[i], q),
    ensures
        retrieve_from(nodes, q, k) == Seq::<MemoryNodeV>::empty(),
    decreases nodes.len(),
{
    if nodes.len() > 0 && k > 0 {
        assert(forall|i: int|
            0 <= i < nodes.drop_first().len() ==> nodes.drop_first()[i] == nodes[i + 1]);
        lemma_retrieve_none(nodes.drop_first(), q, k);
    }
}

/// Clarification trigger: for a user who has a graph that fails the
/// new-user gate and at least one memory node, none of which is relevant to
/// the query, a query holding "my" (or "i ") and no personal-context marker
/// is answered with a clarifying question.
pub proof fn lemma_clarification_trigger(g: UserGraph, prompt: Seq<char>, k: nat)
    requires
        g.memory_nodes@.len() >= 1,
        forall|i: int|
            0 <= i < node_views(g.memory_nodes@).len() ==> !node_matches(
                #[trigger] node_views(g.memory_nodes@)[i],
                prompt,
            ),
        contains_sub(lower(prompt), "my"@) || contains_sub(lower(prompt), "i "@),
        !has_personal_context(prompt),
    ensures
        strategy_of(Some(g), prompt, retrieve_from(node_views(g.memory_nodes@), prompt, k))
            == (StrategyV::InquiryFirst {
            question: inquiry_question(prompt),
            why_asking: inquiry_rationale(),
        }),
{
    lemma_retrieve_none(node_views(g.memory_nodes@), prompt, k);
}

/// Memory-grounded answer: whenever retrieval found something and the
/// new-user gate does not fire, the strategy is the confident answer at
/// confidence `0.80` whose sources are exactly the ids of the retrieved
/// memories, in order.
pub proof fn lemma_memory_grounded(g: UserGraph, prompt: Seq<char>, mems: Seq<MemoryNodeV>)
    requires
        g.user_profile.name is Some || g.memory_nodes@.len() > 0,
        mems.len() > 0,
    ensures
        strategy_of(Some(g), prompt, mems) == (StrategyV::ConfidentAnswer {
            confidence: 80,
            sources: memory_ids(mems),
        }),
{
}

} // verus!
