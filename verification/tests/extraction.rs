use memory_mind::extract::{extract_facts_from_message, extract_name_from_message};
use memory_mind::model::FactType;

#[test]
fn name_extraction_round_trip() {
    let facts = extract_facts_from_message("Hi, my name is Aria!");
    assert_eq!(facts.len(), 1);
    assert_eq!(facts[0].fact, "User's name is Aria");
    assert_eq!(facts[0].confidence, 90);
    assert!(matches!(facts[0].fact_type, FactType::PersonalInfo));
    assert!(facts[0].should_remember);
}

#[test]
fn extraction_is_deterministic_across_calls() {
    let message = "I like rust and my goal is to verify code";
    let first = extract_facts_from_message(message);
    let second = extract_facts_from_message(message);
    let third = extract_facts_from_message(message);
    assert_eq!(first.len(), 2);
    for other in [&second, &third] {
        assert_eq!(first.len(), other.len());
        for (a, b) in first.iter().zip(other.iter()) {
            assert_eq!(a.fact, b.fact);
            assert_eq!(a.confidence, b.confidence);
            assert_eq!(a.should_remember, b.should_remember);
        }
    }
    assert!(matches!(first[0].fact_type, FactType::Preference));
    assert_eq!(first[0].confidence, 80);
    assert!(matches!(first[1].fact_type, FactType::Goal));
    assert_eq!(first[1].confidence, 80);
}

#[test]
fn extraction_rule_order_not_message_order() {
    let facts = extract_facts_from_message("I want to travel more because I like trains");
    assert_eq!(facts.len(), 2);
    assert!(matches!(facts[0].fact_type, FactType::Preference));
    assert!(matches!(facts[1].fact_type, FactType::Goal));
}

#[test]
fn empty_message_yields_no_facts() {
    assert!(extract_facts_from_message("").is_empty());
}

#[test]
fn unmatched_message_yields_no_facts() {
    assert!(extract_facts_from_message("What is the weather today?").is_empty());
}

#[test]
fn work_rules_keep_the_full_message() {
    let facts = extract_facts_from_message("I work at a bakery");
    assert_eq!(facts.len(), 1);
    assert_eq!(facts[0].fact, "I work at a bakery");
    assert_eq!(facts[0].confidence, 70);
    assert!(matches!(facts[0].fact_type, FactType::PersonalInfo));

    let facts = extract_facts_from_message("I'm a teacher");
    assert_eq!(facts.len(), 1);
    assert_eq!(facts[0].fact, "I'm a teacher");
    assert_eq!(facts[0].confidence, 70);
}

#[test]
fn name_matching_is_case_insensitive() {
    assert_eq!(
        extract_name_from_message("MY NAME IS carol").as_deref(),
        Some("carol")
    );
}

#[test]
fn name_strips_trailing_punctuation() {
    assert_eq!(
        extract_name_from_message("my name is Bob.").as_deref(),
        Some("Bob")
    );
    assert_eq!(
        extract_name_from_message("my name is Dee?!,").as_deref(),
        Some("Dee")
    );
}

#[test]
fn name_absent_when_no_phrase_or_token() {
    assert_eq!(extract_name_from_message("hello there"), None);
    assert_eq!(extract_name_from_message("my name is"), None);
    assert_eq!(extract_name_from_message("my name is   "), None);
}
