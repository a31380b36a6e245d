use memory_mind::metrics::{
    calculate_days_since_first_interaction, calculate_learning_progress,
    calculate_memory_strength, calculate_profile_completeness,
};
use memory_mind::model::{
    KnowledgeEdge, MemoryNode, MemoryNodeType, PersonalGoal, RelationshipType, UserGraph,
    WorkContext,
};
use memory_mind::prompt::{build_generation_prompt, greet, interpret_generation_outcome};
use memory_mind::text::{find_sub, to_lower, token_after, u64_to_string};
use memory_mind::NANOS_PER_DAY;

fn plain_node(id: &str, created_at: u64) -> MemoryNode {
    MemoryNode {
        id: id.to_string(),
        content: "something".to_string(),
        node_type: MemoryNodeType::Fact,
        importance_score: 50,
        created_at,
        last_accessed: created_at,
        access_count: 1,
        tags: Vec::new(),
        related_conversations: Vec::new(),
    }
}

#[test]
fn memory_strength_follows_the_formula() {
    // (2 nodes * 0.4 + 1 edge * 0.3 + 3 interactions * 0.3) / 100 = 0.020,
    // reported as 20 thousandths.
    let mut g = UserGraph::empty_graph(0);
    g.memory_nodes.push(plain_node("a", 1));
    g.memory_nodes.push(plain_node("b", 2));
    g.relationships.push(KnowledgeEdge {
        from_node: "a".to_string(),
        to_node: "b".to_string(),
        relationship_type: RelationshipType::Related,
        strength: 50,
        created_at: 3,
    });
    g.learning_patterns.interaction_count = 3;
    assert_eq!(calculate_memory_strength(Some(&g)), 20);
    assert_eq!(calculate_memory_strength(None), 0);
}

#[test]
fn profile_completeness_counts_quarters() {
    let mut g = UserGraph::empty_graph(0);
    assert_eq!(calculate_profile_completeness(&g.user_profile), 0);
    g.user_profile.name = Some("Ann".to_string());
    assert_eq!(calculate_profile_completeness(&g.user_profile), 250);
    g.user_profile.interests.push("chess".to_string());
    g.user_profile.goals.push(PersonalGoal {
        goal: "run a marathon".to_string(),
        category: "health".to_string(),
        target_date: None,
        progress: 40,
        importance: 90,
    });
    g.user_profile.work_context = Some(WorkContext {
        job_title: None,
        company: None,
        industry: None,
        current_projects: Vec::new(),
        skills: Vec::new(),
    });
    assert_eq!(calculate_profile_completeness(&g.user_profile), 1000);
}

#[test]
fn learning_progress_is_the_mean_of_completeness_and_capped_interactions() {
    let mut g = UserGraph::empty_graph(0);
    g.user_profile.name = Some("Ann".to_string());
    g.learning_patterns.interaction_count = 10;
    // (250 + 100) / 2 = 175 thousandths.
    assert_eq!(calculate_learning_progress(Some(&g)), 175);
    assert_eq!(calculate_learning_progress(None), 0);
}

#[test]
fn completeness_and_progress_stay_clamped() {
    let mut g = UserGraph::empty_graph(0);
    g.user_profile.name = Some("Ann".to_string());
    g.user_profile.interests.push("x".to_string());
    g.user_profile.goals.push(PersonalGoal {
        goal: "g".to_string(),
        category: "c".to_string(),
        target_date: None,
        progress: 100,
        importance: 100,
    });
    g.user_profile.work_context = Some(WorkContext {
        job_title: None,
        company: None,
        industry: None,
        current_projects: Vec::new(),
        skills: Vec::new(),
    });
    g.learning_patterns.interaction_count = u32::MAX;
    let completeness = calculate_profile_completeness(&g.user_profile);
    let progress = calculate_learning_progress(Some(&g));
    assert!(completeness <= 1000);
    assert_eq!(progress, 1000);
}

#[test]
fn tenure_is_zero_with_no_memory_nodes() {
    let g = UserGraph::empty_graph(123);
    assert_eq!(
        calculate_days_since_first_interaction(Some(&g), 987_654_321_000),
        0
    );
    assert_eq!(calculate_days_since_first_interaction(None, 5), 0);
}

#[test]
fn tenure_counts_whole_days_from_the_earliest_node() {
    let mut g = UserGraph::empty_graph(0);
    let now = 10 * NANOS_PER_DAY;
    g.memory_nodes.push(plain_node("late", now - NANOS_PER_DAY));
    g.memory_nodes.push(plain_node("early", now - 3 * NANOS_PER_DAY - 1));
    assert_eq!(calculate_days_since_first_interaction(Some(&g), now), 3);
}

#[test]
fn case_folding_is_ascii_and_total() {
    assert_eq!(to_lower("AbC! XyZ"), "abc! xyz");
    assert_eq!(to_lower(""), "");
}

#[test]
fn substring_search_finds_the_first_occurrence() {
    assert_eq!(find_sub("hello", "ll"), Some(2));
    assert_eq!(find_sub("hello", "xyz"), None);
    assert_eq!(find_sub("aaa", "a"), Some(0));
    assert_eq!(find_sub("abc", ""), Some(0));
}

#[test]
fn tokens_are_taken_after_a_position_and_trimmed() {
    assert_eq!(token_after("my name is   Bob!! ", 10), "Bob");
    assert_eq!(token_after("xx Carol,", 2), "Carol");
    assert_eq!(token_after("nothing", 7), "");
}

#[test]
fn decimal_rendering_matches() {
    assert_eq!(u64_to_string(0), "0");
    assert_eq!(u64_to_string(7), "7");
    assert_eq!(u64_to_string(12345), "12345");
    assert_eq!(u64_to_string(u64::MAX), "18446744073709551615");
}

#[test]
fn greeting_embeds_the_name() {
    assert_eq!(
        greet("Sam"),
        "Hello, Sam! I'm MemoryMind, your personal AI that learns and remembers. Let's build your knowledge graph together!"
    );
}

#[test]
fn generation_prompt_renders_context_and_memories() {
    let mems = vec![plain_node("m", 1)];
    let p = build_generation_prompt("User's name: Ann\n", &mems, "what now?");
    assert!(p.starts_with("You are MemoryMind"));
    assert!(p.contains("USER CONTEXT:\nUser's name: Ann\n\n"));
    assert!(p.contains("RELEVANT MEMORIES:\n- something (Fact)\n\n"));
    assert!(p.contains("USER QUESTION: what now?\n\n"));
    // A whitespace-only context leaves no context block.
    let p2 = build_generation_prompt("  \n", &Vec::new(), "q");
    assert!(!p2.contains("USER CONTEXT"));
    assert!(!p2.contains("RELEVANT MEMORIES"));
}

#[test]
fn generation_outcomes_map_to_their_errors() {
    assert_eq!(
        interpret_generation_outcome(false, "404", "not found", None, None).unwrap_err(),
        "API call failed with status 404: not found"
    );
    assert_eq!(
        interpret_generation_outcome(true, "200", "", Some("bad json".to_string()), None)
            .unwrap_err(),
        "Failed to parse response: bad json"
    );
    assert_eq!(
        interpret_generation_outcome(true, "200", "", None, None).unwrap_err(),
        "No content found in Gemini response"
    );
    assert_eq!(
        interpret_generation_outcome(true, "200", "", None, Some("answer".to_string())).unwrap(),
        "answer"
    );
}
