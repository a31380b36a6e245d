use memory_mind::model::{MemoryNode, MemoryNodeType, ResponseStrategy, UserGraph};
use memory_mind::retrieve::retrieve_relevant;
use memory_mind::strategy::{
    contains_personal_context, determine_response_strategy, extract_topic_from_prompt,
    is_learning_opportunity,
};

fn node(id: &str, content: &str, tags: &[&str]) -> MemoryNode {
    MemoryNode {
        id: id.to_string(),
        content: content.to_string(),
        node_type: MemoryNodeType::Preference,
        importance_score: 80,
        created_at: 1,
        last_accessed: 1,
        access_count: 1,
        tags: tags.iter().map(|t| t.to_string()).collect(),
        related_conversations: Vec::new(),
    }
}

#[test]
fn new_user_gate_wins_over_personal_reference() {
    let g = UserGraph::empty_graph(0);
    let memories = Vec::new();
    let strategy = determine_response_strategy(Some(&g), "what should my day look like", &memories);
    match strategy {
        ResponseStrategy::ConfidentAnswer { confidence, sources } => {
            assert_eq!(confidence, 70);
            assert!(sources.is_empty());
        }
        _ => panic!("expected the confident answer of the new-user gate"),
    }
}

#[test]
fn clarification_trigger_for_unknown_personal_query() {
    let mut g = UserGraph::empty_graph(0);
    g.memory_nodes.push(node("n1", "loves hiking", &[]));
    let query = "my favorite color";
    let memories = retrieve_relevant(&g.memory_nodes, query);
    assert!(memories.is_empty());
    let strategy = determine_response_strategy(Some(&g), query, &memories);
    match strategy {
        ResponseStrategy::InquiryFirst { question, why_asking } => {
            assert_eq!(
                question,
                "I want to give you the most helpful response. Could you provide a bit more context about my favorite color?"
            );
            assert_eq!(
                why_asking,
                "This helps me understand your specific situation and give you better advice"
            );
        }
        _ => panic!("expected a clarifying question"),
    }
}

#[test]
fn memory_grounded_answer_cites_the_node() {
    let mut g = UserGraph::empty_graph(0);
    g.memory_nodes.push(node("n-hike", "loves hiking", &["hiking"]));
    let query = "What should I do this weekend? hiking ideas";
    let memories = retrieve_relevant(&g.memory_nodes, query);
    assert_eq!(memories.len(), 1);
    assert_eq!(memories[0].id, "n-hike");
    let strategy = determine_response_strategy(Some(&g), query, &memories);
    match strategy {
        ResponseStrategy::ConfidentAnswer { confidence, sources } => {
            assert_eq!(confidence, 80);
            assert_eq!(sources, vec!["n-hike".to_string()]);
        }
        _ => panic!("expected a memory-grounded confident answer"),
    }
}

#[test]
fn learning_opportunity_when_nothing_matches_and_no_personal_words() {
    let mut g = UserGraph::empty_graph(0);
    g.user_profile.name = Some("Ann".to_string());
    let memories = Vec::new();
    let strategy = determine_response_strategy(Some(&g), "tell me about rust", &memories);
    match strategy {
        ResponseStrategy::LearningOpportunity { suggestion } => {
            assert_eq!(
                suggestion,
                "I can help you with this and remember your preferences for next time"
            );
        }
        _ => panic!("expected the learning-opportunity strategy"),
    }
}

#[test]
fn no_graph_falls_through_to_default_answer() {
    let memories = Vec::new();
    let strategy = determine_response_strategy(None, "hello", &memories);
    match strategy {
        ResponseStrategy::ConfidentAnswer { confidence, sources } => {
            assert_eq!(confidence, 60);
            assert!(sources.is_empty());
        }
        _ => panic!("expected the default confident answer"),
    }
}

#[test]
fn retrieval_caps_at_five_matches() {
    let mut nodes = Vec::new();
    for i in 0..7 {
        nodes.push(node(&format!("n{}", i), "likes green tea", &[]));
    }
    let found = retrieve_relevant(&nodes, "tea");
    assert_eq!(found.len(), 5);
    for (i, m) in found.iter().enumerate() {
        assert_eq!(m.id, format!("n{}", i));
    }
}

#[test]
fn retrieval_matches_content_and_tags_case_folded() {
    let nodes = vec![
        node("a", "Enjoys TEA ceremonies", &[]),
        node("b", "nothing relevant", &["Tea"]),
        node("c", "nothing at all", &[]),
    ];
    let found = retrieve_relevant(&nodes, "tea");
    let ids: Vec<&str> = found.iter().map(|n| n.id.as_str()).collect();
    assert_eq!(ids, ["a", "b"]);
}

#[test]
fn retrieval_over_empty_graph_is_empty() {
    let nodes: Vec<MemoryNode> = Vec::new();
    assert!(retrieve_relevant(&nodes, "anything").is_empty());
}

#[test]
fn topic_is_truncated_after_fifty_characters() {
    let long = "a".repeat(60);
    let topic = extract_topic_from_prompt(&long);
    assert_eq!(topic, format!("{}...", "a".repeat(50)));
    let short = "short question";
    assert_eq!(extract_topic_from_prompt(short), short);
    let exactly_fifty = "b".repeat(50);
    assert_eq!(extract_topic_from_prompt(&exactly_fifty), exactly_fifty);
}

#[test]
fn personal_context_markers_are_recognised() {
    assert!(contains_personal_context("Well, I usually get up late"));
    assert!(contains_personal_context("I AM tired"));
    assert!(!contains_personal_context("my favorite color"));
}

#[test]
fn every_query_is_a_learning_opportunity() {
    assert!(is_learning_opportunity(""));
    assert!(is_learning_opportunity("anything at all"));
}
