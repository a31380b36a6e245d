use memory_mind::model::{
    MemoryNodeType, ResponseStrategy, Sentiment, UserProfileUpdate,
};
use memory_mind::prompt::QueryPlan;
use memory_mind::store::MemoryStore;

fn alice() -> String {
    "alice".to_string()
}

fn confident() -> ResponseStrategy {
    ResponseStrategy::ConfidentAnswer { confidence: 70, sources: Vec::new() }
}

#[test]
fn ensure_graph_is_idempotent() {
    let mut store = MemoryStore::new();
    let user = alice();
    store.ensure_graph(&user, 5);
    let (nodes_once, edges_once) = {
        let g = store.get_user_knowledge_graph(&user, true, &user).unwrap();
        (g.memory_nodes.len(), g.relationships.len())
    };
    store.ensure_graph(&user, 99);
    let g = store.get_user_knowledge_graph(&user, true, &user).unwrap();
    assert_eq!(g.memory_nodes.len(), nodes_once);
    assert_eq!(g.relationships.len(), edges_once);
    assert_eq!(g.last_updated, 5);
}

#[test]
fn authorization_hides_other_users_graphs() {
    let mut store = MemoryStore::new();
    let user = alice();
    let mallory = "mallory".to_string();
    store.ensure_graph(&user, 1);
    assert!(store.get_user_knowledge_graph(&mallory, false, &user).is_none());
    assert!(store.get_user_memories(&mallory, false, &user, None).is_empty());
    assert_eq!(
        store.get_user_dashboard(&mallory, false, &user, 2).unwrap_err(),
        "Unauthorized"
    );
    let upd = UserProfileUpdate { name: Some("Eve".to_string()), interests: None, goals: None };
    assert_eq!(
        store.update_user_profile(&mallory, false, &user, upd, 2).unwrap_err(),
        "Unauthorized"
    );
    // The subject user and an administrator both see the graph.
    assert!(store.get_user_knowledge_graph(&user, false, &user).is_some());
    assert!(store.get_user_knowledge_graph(&mallory, true, &user).is_some());
}

#[test]
fn profile_update_needs_an_existing_graph() {
    let mut store = MemoryStore::new();
    let user = alice();
    let upd = UserProfileUpdate { name: Some("Alice".to_string()), interests: None, goals: None };
    assert_eq!(
        store.update_user_profile(&user, false, &user, upd, 1).unwrap_err(),
        "User knowledge graph not found"
    );
}

#[test]
fn profile_update_applies_name_and_interests() {
    let mut store = MemoryStore::new();
    let user = alice();
    store.ensure_graph(&user, 1);
    let upd = UserProfileUpdate {
        name: Some("Alice".to_string()),
        interests: Some(vec!["climbing".to_string(), "chess".to_string()]),
        goals: None,
    };
    let ok = store.update_user_profile(&user, false, &user, upd, 7).unwrap();
    assert_eq!(ok, "Profile updated successfully");
    let g = store.get_user_knowledge_graph(&user, false, &user).unwrap();
    assert_eq!(g.user_profile.name.as_deref(), Some("Alice"));
    assert_eq!(g.user_profile.interests, vec!["climbing", "chess"]);
    assert_eq!(g.last_updated, 7);
}

#[test]
fn saving_a_conversation_learns_facts() {
    let mut store = MemoryStore::new();
    let user = alice();
    store.ensure_graph(&user, 1);
    store.save_conversation_with_learning(
        &user,
        "my name is Alice",
        "Nice to meet you!".to_string(),
        None,
        confident(),
        42,
    );
    let g = store.get_user_knowledge_graph(&user, false, &user).unwrap();
    assert_eq!(g.memory_nodes.len(), 1);
    let n = &g.memory_nodes[0];
    assert_eq!(n.content, "User's name is Alice");
    assert_eq!(n.importance_score, 90);
    assert!(matches!(n.node_type, MemoryNodeType::Fact));
    assert_eq!(n.created_at, 42);
    assert_eq!(n.access_count, 1);
    assert_eq!(n.id, "memory_alice_42");
    assert_eq!(g.learning_patterns.interaction_count, 1);
    assert_eq!(g.last_updated, 42);
    let metrics = store.get_canister_metrics();
    assert_eq!(metrics.total_queries, 1);
    assert_eq!(metrics.learning_events, 1);
}

#[test]
fn colliding_node_ids_overwrite_so_the_last_fact_wins() {
    let mut store = MemoryStore::new();
    let user = alice();
    store.ensure_graph(&user, 1);
    // Two rules fire on one message; both nodes share one commit id.
    store.save_conversation_with_learning(
        &user,
        "I like tea and I want to travel",
        "Noted.".to_string(),
        None,
        confident(),
        50,
    );
    let g = store.get_user_knowledge_graph(&user, false, &user).unwrap();
    assert_eq!(g.memory_nodes.len(), 1);
    assert!(matches!(g.memory_nodes[0].node_type, MemoryNodeType::Goal));
    assert_eq!(g.memory_nodes[0].content, "I like tea and I want to travel");
    assert_eq!(g.memory_nodes[0].importance_score, 80);
}

#[test]
fn distinct_commit_times_make_distinct_nodes() {
    let mut store = MemoryStore::new();
    let user = alice();
    store.ensure_graph(&user, 1);
    store.save_conversation_with_learning(
        &user, "I like tea", "ok".to_string(), None, confident(), 60,
    );
    store.save_conversation_with_learning(
        &user, "I like coffee", "ok".to_string(), None, confident(), 61,
    );
    let g = store.get_user_knowledge_graph(&user, false, &user).unwrap();
    assert_eq!(g.memory_nodes.len(), 2);
    assert_eq!(g.learning_patterns.interaction_count, 2);
}

#[test]
fn saving_for_an_unknown_user_logs_without_creating_a_graph() {
    let mut store = MemoryStore::new();
    let user = alice();
    store.save_conversation_with_learning(
        &user, "I like tea", "ok".to_string(), None, confident(), 3,
    );
    assert!(store.get_user_knowledge_graph(&user, true, &user).is_none());
    let metrics = store.get_canister_metrics();
    assert_eq!(metrics.total_queries, 1);
    assert_eq!(metrics.learning_events, 1);
}

#[test]
fn conversation_record_carries_the_exchange() {
    let mut store = MemoryStore::new();
    let user = alice();
    store.ensure_graph(&user, 1);
    store.save_conversation_with_learning(
        &user,
        "my name is Alice",
        "Hello Alice!".to_string(),
        Some("thread-1".to_string()),
        confident(),
        9,
    );
    let d = store.get_user_dashboard(&user, false, &user, 9).unwrap();
    assert_eq!(d.conversation_count, 1);
    // The memories read back through the public surface carry the record's fact.
    let mems = store.get_user_memories(&user, false, &user, None);
    assert_eq!(mems.len(), 1);
    assert_eq!(mems[0].content, "User's name is Alice");
}

#[test]
fn memories_respect_the_limit_and_its_default() {
    let mut store = MemoryStore::new();
    let user = alice();
    store.ensure_graph(&user, 1);
    for t in 0..60 {
        store.save_conversation_with_learning(
            &user, "I like tea", "ok".to_string(), None, confident(), 1000 + t,
        );
    }
    assert_eq!(store.get_user_memories(&user, false, &user, None).len(), 50);
    assert_eq!(store.get_user_memories(&user, false, &user, Some(3)).len(), 3);
    assert_eq!(store.get_user_memories(&user, false, &user, Some(200)).len(), 60);
}

#[test]
fn api_key_is_restricted_to_administrators() {
    let mut store = MemoryStore::new();
    assert_eq!(
        store.set_api_key(false, "SECRET-REDACTED".to_string()).unwrap_err(),
        "Only a controller can set the API key."
    );
    assert!(store.get_available_providers().is_empty());
    store.set_api_key(true, "SECRET-REDACTED".to_string()).unwrap();
    assert_eq!(store.get_available_providers(), vec!["gemini".to_string()]);
}

#[test]
fn plan_query_without_credential_fails_before_any_commit() {
    let mut store = MemoryStore::new();
    let user = alice();
    // A fresh user hits the new-user gate: a confident answer, which needs
    // the generation service and therefore a credential.
    let err = store.plan_query(&user, "hello there", 2).unwrap_err();
    assert_eq!(err, "API key is not set");
    let metrics = store.get_canister_metrics();
    assert_eq!(metrics.total_queries, 0);
}

#[test]
fn plan_query_builds_the_generation_prompt() {
    let mut store = MemoryStore::new();
    let user = alice();
    store.set_api_key(true, "SECRET-REDACTED".to_string()).unwrap();
    let plan = store.plan_query(&user, "hello there", 2).unwrap();
    match plan {
        QueryPlan::Generate { prompt, strategy } => {
            // A fresh graph has no context and no memories: both blocks are omitted.
            let mut expected = String::new();
            expected.push_str("You are MemoryMind, a personal AI assistant that learns and remembers everything about the user. ");
            expected.push_str("Use the following context to provide a personalized response:\n\n");
            expected.push_str("USER QUESTION: hello there\n\n");
            expected.push_str("Provide a helpful, personalized response that references relevant context and memories when appropriate. ");
            expected.push_str("Be conversational and show that you remember previous interactions.");
            assert_eq!(prompt, expected);
            match strategy {
                ResponseStrategy::ConfidentAnswer { confidence, .. } => assert_eq!(confidence, 70),
                _ => panic!("expected the new-user confident answer"),
            }
        }
        QueryPlan::Respond { .. } => panic!("expected a generation plan"),
    }
}

#[test]
fn plan_query_answers_personal_questions_locally() {
    let mut store = MemoryStore::new();
    let user = alice();
    store.ensure_graph(&user, 1);
    store.save_conversation_with_learning(
        &user, "I like tea", "ok".to_string(), None, confident(), 10,
    );
    let plan = store.plan_query(&user, "my favorite color", 11).unwrap();
    match plan {
        QueryPlan::Respond { response, strategy } => {
            assert!(matches!(strategy, ResponseStrategy::InquiryFirst { .. }));
            assert_eq!(
                response,
                "🤔 I want to give you the most helpful response. Could you provide a bit more context about my favorite color?\n\n(This helps me understand your specific situation and give you better advice)"
            );
        }
        QueryPlan::Generate { .. } => panic!("expected a locally rendered clarification"),
    }
}

#[test]
fn full_query_round_trip_grounds_in_memory() {
    let mut store = MemoryStore::new();
    let user = alice();
    store.set_api_key(true, "SECRET-REDACTED".to_string()).unwrap();
    store.ensure_graph(&user, 1);
    store.save_conversation_with_learning(
        &user, "I like tea", "ok".to_string(), None, confident(), 10,
    );
    let plan = store.plan_query(&user, "tea", 11).unwrap();
    match plan {
        QueryPlan::Generate { prompt, strategy } => {
            assert!(prompt.contains("RELEVANT MEMORIES:\n- I like tea (Preference)\n"));
            assert!(prompt.contains("USER QUESTION: tea\n\n"));
            match strategy {
                ResponseStrategy::ConfidentAnswer { confidence, sources } => {
                    assert_eq!(confidence, 80);
                    assert_eq!(sources, vec!["memory_alice_10".to_string()]);
                }
                _ => panic!("expected a memory-grounded answer"),
            }
        }
        QueryPlan::Respond { .. } => panic!("expected a generation plan"),
    }
    // The commit that the runner performs afterwards.
    store.save_conversation_with_learning(
        &user,
        "tea",
        "You like tea!".to_string(),
        None,
        ResponseStrategy::ConfidentAnswer {
            confidence: 80,
            sources: vec!["memory_alice_10".to_string()],
        },
        12,
    );
    let g = store.get_user_knowledge_graph(&user, false, &user).unwrap();
    assert_eq!(g.learning_patterns.interaction_count, 2);
}

#[test]
fn the_chat_record_holds_role_facts_strategy_and_neutral_sentiment() {
    let mut store = MemoryStore::new();
    let user = alice();
    store.ensure_graph(&user, 1);
    store.save_conversation_with_learning(
        &user,
        "my name is Alice",
        "Hello!".to_string(),
        Some("t1".to_string()),
        confident(),
        8,
    );
    assert_eq!(store.conversations.len(), 1);
    let (who, log) = &store.conversations[0];
    assert_eq!(who, "alice");
    assert_eq!(log.len(), 1);
    let rec = &log[0];
    assert_eq!(rec.role, "assistant");
    assert_eq!(rec.content, "Hello!");
    assert_eq!(rec.timestamp, 8);
    assert_eq!(rec.context_thread_id.as_deref(), Some("t1"));
    assert_eq!(rec.extracted_facts.len(), 1);
    assert_eq!(rec.extracted_facts[0].fact, "User's name is Alice");
    assert!(matches!(rec.user_sentiment, Some(Sentiment::Neutral)));
    assert!(matches!(
        rec.response_strategy,
        Some(ResponseStrategy::ConfidentAnswer { .. })
    ));
}
