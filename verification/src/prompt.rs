//! Prompt assembly and the per-query control flow up to and after the one
//! external generation call: building the user-context block, rendering the
//! locally answered strategies, planning a query (decide, then either answer
//! locally or hand out a fully built prompt), and interpreting what the
//! generation service returned.
use vstd::prelude::*;

use crate::model::{
    node_type_label, node_views, MemoryNode, MemoryNodeV, PersonalGoal, ResponseStrategy,
    StrategyV, UserGraph,
};
use crate::retrieve::{relevant_memories, retrieve_relevant};
use crate::store::MemoryStore;
use crate::strategy::{determine_response_strategy, strategy_of};
use crate::text::{dec_rep, is_ws_char, is_ws_exec, u64_to_string};

verus! {

/// The parts joined with the separator, from index `i` on.
pub open spec fn join_from(parts: Seq<Seq<char>>, sep: Seq<char>, i: int) -> Seq<char>
    decreases parts.len() - i,
{
    if i >= parts.len() {
        Seq::empty()
    } else if i == parts.len() - 1 {
        parts[i]
    } else {
        parts[i] + sep + join_from(parts, sep, i + 1)
    }
}

/// The goal lines of the context block, one goal per line with its
/// percent-complete, from index `i` on.
pub open spec fn goals_block_from(goals: Seq<PersonalGoal>, i: int) -> Seq<char>
    decreases goals.len() - i,
{
    if i >= goals.len() {
        Seq::empty()
    } else {
        "- "@ + goals[i].goal@ + " ("@ + dec_rep(goals[i].progress as int) + "% complete)\n"@
            + goals_block_from(goals, i + 1)
    }
}

/// The context block rendered from the non-empty profile fields: name,
/// interests, goals with percent-complete; empty fields leave no line.
pub open spec fn user_context_of(g: UserGraph) -> Seq<char> {
    (match g.user_profile.name {
        Some(n) => "User's name: "@ + n@ + "\n"@,
        None => Seq::empty(),
    }) + (if g.user_profile.interests@.len() > 0 {
        "Interests: "@ + join_from(
            g.user_profile.interests@.map_values(|s: String| s@),
            ", "@,
            0,
        ) + "\n"@
    } else {
        Seq::empty()
    }) + (if g.user_profile.goals@.len() > 0 {
        "Current goals:\n"@ + goals_block_from(g.user_profile.goals@, 0)
    } else {
        Seq::empty()
    })
}

/// The context handed out for a user who never interacted.
pub open spec fn new_user_context() -> Seq<char> {
    "New user - no previous context"@
}

/// Whether the text holds any non-whitespace character.
pub open spec fn has_visible(s: Seq<char>) -> bool {
    exists|i: int| 0 <= i < s.len() && !is_ws_char(s[i])
}

/// The retrieved memories rendered one per line with their type label, from
/// index `i` on.
pub open spec fn memory_lines_from(mems: Seq<MemoryNodeV>, i: int) -> Seq<char>
    decreases mems.len() - i,
{
    if i >= mems.len() {
        Seq::empty()
    } else {
        "- "@ + mems[i].content + " ("@ + node_type_label(mems[i].node_type) + ")\n"@
            + memory_lines_from(mems, i + 1)
    }
}

/// The full prompt sent to the generation service: a fixed preamble, the
/// context and memory blocks (omitted when their source data is empty), the
/// literal user question, and a fixed trailer.
pub open spec fn generation_prompt(
    context: Seq<char>,
    mems: Seq<MemoryNodeV>,
    question: Seq<char>,
) -> Seq<char> {
    "You are MemoryMind, a personal AI assistant that learns and remembers everything about the user. "@
        + "Use the following context to provide a personalized response:\n\n"@ + (
    if has_visible(context) {
        "USER CONTEXT:\n"@ + context + "\n"@
    } else {
        Seq::empty()
    }) + (if mems.len() > 0 {
        "RELEVANT MEMORIES:\n"@ + memory_lines_from(mems, 0) + "\n"@
    } else {
        Seq::empty()
    }) + "USER QUESTION: "@ + question + "\n\n"@
        + "Provide a helpful, personalized response that references relevant context and memories when appropriate. "@
        + "Be conversational and show that you remember previous interactions."@
}

/// The response rendered locally for the three strategies that never call
/// the generation service (a confident answer is generated, not rendered).
pub open spec fn local_response(s: StrategyV) -> Seq<char> {
    match s {
        StrategyV::InquiryFirst { question, why_asking } => "🤔 "@ + question + "\n\n("@
            + why_asking + ")"@,
        StrategyV::PartialAnswer { known_info, clarification_needed } => (
        "Based on what I know about you: "@ + known_info) + "\n\n❓ "@ + clarification_needed,
        StrategyV::LearningOpportunity { suggestion } => "💡 "@ + suggestion
            + "\n\nWould you like me to remember this for future conversations?"@,
        StrategyV::ConfidentAnswer { .. } => Seq::empty(),
    }
}

/// The fixed greeting.
pub open spec fn greeting_of(name: Seq<char>) -> Seq<char> {
    "Hello, "@ + name
        + "! I'm MemoryMind, your personal AI that learns and remembers. Let's build your knowledge graph together!"@
}

/// Greets a caller by name.
pub fn greet(name: &str) -> (r: String)
    ensures
        r@ == greeting_of(name@),
{
    let mut r = String::from_str("Hello, ");
    r.append(name);
    r.append(
        "! I'm MemoryMind, your personal AI that learns and remembers. Let's build your knowledge graph together!",
    );
    r
}

fn join_interests(interests: &Vec<String>) -> (r: String)
    ensures
        r@ == join_from(interests@.map_values(|s: String| s@), ", "@, 0),
{
    let ghost parts = interests@.map_values(|s: String| s@);
    let mut acc = String::new();
    let mut i: usize = interests.len();
    while i > 0
        invariant
            i <= interests@.len(),
            parts == interests@.map_values(|s: String| s@),
            acc@ == join_from(parts, ", "@, i as int),
        decreases i,
    {
        i = i - 1;
        proof {
            assert(parts[i as int] == interests@[i as int]@);
        }
        let mut t = interests[i].clone();
        if i + 1 < interests.len() {
            t.append(", ");
            t.append(acc.as_str());
        }
        acc = t;
    }
    acc
}

fn build_goals_block(goals: &Vec<PersonalGoal>) -> (r: String)
    ensures
        r@ == goals_block_from(goals@, 0),
{
    let mut acc = String::new();
    let mut i: usize = goals.len();
    while i > 0
        invariant
            i <= goals@.len(),
            acc@ == goals_block_from(goals@, i as int),
        decreases i,
    {
        i = i - 1;
        let mut t = String::from_str("- ");
        t.append(goals[i].goal.as_str());
        t.append(" (");
        let p = u64_to_string(goals[i].progress as u64);
        t.append(p.as_str());
        t.append("% complete)\n");
        t.append(acc.as_str());
        acc = t;
    }
    acc
}

fn build_memory_lines(mems: &Vec<MemoryNode>) -> (r: String)
    ensures
        r@ == memory_lines_from(node_views(mems@), 0),
{
    let ghost views = node_views(mems@);
    let mut acc = String::new();
    let mut i: usize = mems.len();
    while i > 0
        invariant
            i <= mems@.len(),
            views == node_views(mems@),
            acc@ == memory_lines_from(views, i as int),
        decreases i,
    {
        i = i - 1;
        proof {
            assert(views[i as int] == mems@[i as int]@);
        }
        let mut t = String::from_str("- ");
        t.append(mems[i].content.as_str());
        t.append(" (");
        t.append(mems[i].node_type.to_string());
        t.append(")\n");
        t.append(acc.as_str());
        acc = t;
    }
    acc
}

fn has_visible_exec(s: &str) -> (b: bool)
    ensures
        b == has_visible(s@),
{
    let n = s.unicode_len();
    let mut i: usize = 0;
    while i < n
        invariant
            i <= n,
            n == s@.len(),
            forall|j: int| 0 <= j < i ==> is_ws_char(s@[j]),
        decreases n - i,
    {
        if !is_ws_exec(s.get_char(i)) {
            return true;
        }
        i = i + 1;
    }
    false
}

/// Builds the full generation prompt from the context block, the retrieved
/// memories and the user's question.
pub fn build_generation_prompt(
    user_context: &str,
    relevant_mems: &Vec<MemoryNode>,
    prompt: &str,
) -> (r: String)
    ensures
        r@ == generation_prompt(user_context@, node_views(relevant_mems@), prompt@),
{
    let mut p = String::from_str(
        "You are MemoryMind, a personal AI assistant that learns and remembers everything about the user. ",
    );
    p.append("Use the following context to provide a personalized response:\n\n");
    if has_visible_exec(user_context) {
        p.append("USER CONTEXT:\n");
        p.append(user_context);
        p.append("\n");
    }
    if relevant_mems.len() > 0 {
        p.append("RELEVANT MEMORIES:\n");
        let lines = build_memory_lines(relevant_mems);
        p.append(lines.as_str());
        p.append("\n");
    }
    p.append("USER QUESTION: ");
    p.append(prompt);
    p.append("\n\n");
    p.append(
        "Provide a helpful, personalized response that references relevant context and memories when appropriate. ",
    );
    p.append("Be conversational and show that you remember previous interactions.");
    proof {
        assert(p@ =~= generation_prompt(user_context@, node_views(relevant_mems@), prompt@));
    }
    p
}

/// Renders the response for a strategy answered locally.
pub fn render_local_response(strategy: &ResponseStrategy) -> (r: String)
    ensures
        r@ == local_response(strategy@),
{
    match strategy {
        ResponseStrategy::InquiryFirst { question, why_asking } => {
            let mut r = String::from_str("🤔 ");
            r.append(question.as_str());
            r.append("\n\n(");
            r.append(why_asking.as_str());
            r.append(")");
            proof {
                assert(r@ =~= local_response(strategy@));
            }
            r
        },
        ResponseStrategy::PartialAnswer { known_info, clarification_needed } => {
            let mut r = String::from_str("Based on what I know about you: ");
            r.append(known_info.as_str());
            r.append("\n\n❓ ");
            r.append(clarification_needed.as_str());
            proof {
                assert(r@ =~= local_response(strategy@));
            }
            r
        },
        ResponseStrategy::LearningOpportunity { suggestion } => {
            let mut r = String::from_str("💡 ");
            r.append(suggestion.as_str());
            r.append("\n\nWould you like me to remember this for future conversations?");
            proof {
                assert(r@ =~= local_response(strategy@));
            }
            r
        },
        ResponseStrategy::ConfidentAnswer { .. } => String::new(),
    }
}

/// What one query should do next: answer from what is known, or call the
/// generation service with a fully built prompt. Either way the chosen
/// strategy rides along for the commit that follows.
#[derive(Debug)]
pub enum QueryPlan {
    Respond { response: String, strategy: ResponseStrategy },
    Generate { prompt: String, strategy: ResponseStrategy },
}

impl MemoryStore {
    /// The context block and the retrieved memories for one query; a user
    /// without a graph gets the fixed new-user context and no memories.
    pub fn get_user_context_and_memories(
        &self,
        user: &String,
        prompt: &str,
        _context_thread_id: Option<&String>,
    ) -> (r: (String, Vec<MemoryNode>))
        requires
            self.wf(),
        ensures
            self.has_user(user@) ==> r.0@ == user_context_of(self.graph_of(user@)) && node_views(
                r.1@,
            ) == relevant_memories(
                node_views(self.graph_of(user@).memory_nodes@),
                prompt@,
            ),
            !self.has_user(user@) ==> r.0@ == new_user_context() && r.1@.len() == 0,
    {
        match crate::store::find_graph_index(self, user) {
            Some(i) => {
                let g = &self.graphs[i].1;
                let mut context = String::new();
                match &g.user_profile.name {
                    Some(name) => {
                        context.append("User's name: ");
                        context.append(name.as_str());
                        context.append("\n");
                    },
                    None => {},
                }
                if g.user_profile.interests.len() > 0 {
                    context.append("Interests: ");
                    let joined = join_interests(&g.user_profile.interests);
                    context.append(joined.as_str());
                    context.append("\n");
                }
                if g.user_profile.goals.len() > 0 {
                    context.append("Current goals:\n");
                    let block = build_goals_block(&g.user_profile.goals);
                    context.append(block.as_str());
                }
                let memories = retrieve_relevant(&g.memory_nodes, prompt);
                proof {
                    assert(context@ =~= user_context_of(self.graph_of(user@)));
                }
                (context, memories)
            },
            None => (String::from_str("New user - no previous context"), Vec::new()),
        }
    }

    /// Everything one query does before and instead of the external call:
    /// ensure the graph exists, retrieve context, pick the strategy, and
    /// either render the local response or — for a confident answer — hand
    /// out the full generation prompt. A confident answer without a
    /// configured credential fails here, before anything is generated or
    /// committed.
    pub fn plan_query(&mut self, user: &String, prompt_text: &str, now: u64) -> (r: Result<
        QueryPlan,
        String,
    >)
        requires
            old(self).wf(),
        ensures
            final(self).wf(),
            Self::ensure_graph_post(*old(self), *final(self), user@, now),
            final(self).has_user(user@),
            ({
                let g = final(self).graph_of(user@);
                let mems = relevant_memories(node_views(g.memory_nodes@), prompt_text@);
                let strat = strategy_of(Some(g), prompt_text@, mems);
                match r {
                    Ok(plan) => match plan {
                        QueryPlan::Respond { response, strategy } => {
                            &&& strategy@ == strat
                            &&& !(strat is ConfidentAnswer)
                            &&& response@ == local_response(strat)
                        },
                        QueryPlan::Generate { prompt, strategy } => {
                            &&& strategy@ == strat
                            &&& strat is ConfidentAnswer
                            &&& final(self).api_key@.len() > 0
                            &&& prompt@ == generation_prompt(user_context_of(g), mems, prompt_text@)
                        },
                    },
                    Err(e) => {
                        &&& strat is ConfidentAnswer
                        &&& final(self).api_key@.len() == 0
                        &&& e@ == "API key is not set"@
                    },
                }
            }),
    {
        self.ensure_graph(user, now);
        let (context, memories) = self.get_user_context_and_memories(user, prompt_text, None);
        let strategy = match crate::store::find_graph_index(self, user) {
            Some(i) => determine_response_strategy(Some(&self.graphs[i].1), prompt_text, &memories),
            None => {
                proof {
                    assert(false);
                }
                vstd::pervasive::unreached()
            },
        };
        match &strategy {
            ResponseStrategy::ConfidentAnswer { .. } => {
                if self.api_key.as_str().is_empty() {
                    Err(String::from_str("API key is not set"))
                } else {
                    let prompt = build_generation_prompt(context.as_str(), &memories, prompt_text);
                    Ok(QueryPlan::Generate { prompt, strategy })
                }
            },
            _ => {
                let response = render_local_response(&strategy);
                Ok(QueryPlan::Respond { response, strategy })
            },
        }
    }
}

/// Decides what one generation call came to: a failing status is reported
/// with its body, an unparsable success is reported with the parse error,
/// a parsed reply without content is its own error, and otherwise the first
/// candidate's text is the answer.
pub fn interpret_generation_outcome(
    status_ok: bool,
    status_text: &str,
    body_text: &str,
    parse_error: Option<String>,
    parsed_text: Option<String>,
) -> (r: Result<String, String>)
    ensures
        !status_ok ==> (match r {
            Err(e) => e@ == "API call failed with status "@ + status_text@ + ": "@ + body_text@,
            Ok(_) => false,
        }),
        status_ok ==> (match parse_error {
            Some(pe) => (match r {
                Err(e) => e@ == "Failed to parse response: "@ + pe@,
                Ok(_) => false,
            }),
            None => (match parsed_text {
                Some(t) => r == Ok::<String, String>(t),
                None => (match r {
                    Err(e) => e@ == "No content found in Gemini response"@,
                    Ok(_) => false,
                }),
            }),
        }),
{
    if !status_ok {
        let mut e = String::from_str("API call failed with status ");
        e.append(status_text);
        e.append(": ");
        e.append(body_text);
        return Err(e);
    }
    match parse_error {
        Some(pe) => {
            let mut e = String::from_str("Failed to parse response: ");
            e.append(pe.as_str());
            Err(e)
        },
        None => match parsed_text {
            Some(t) => Ok(t),
            None => Err(String::from_str("No content found in Gemini response")),
        },
    }
}

} // verus!
