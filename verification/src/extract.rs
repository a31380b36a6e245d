//! The Fact Extractor: a deterministic, stateless pass over one raw message
//! that yields an ordered list of candidate facts. Rules are checked in a
//! fixed order (name, work, likes, goals), so the output order follows the
//! rules, not the message.
use vstd::prelude::*;

use crate::model::{ExtractedFact, FactType, FactV};
use crate::text::{
    contains_str, contains_sub, find_from, find_sub, first_token_from, has_token_after,
    lemma_find_from_first, lemma_find_from_none, lower, to_lower, token_after,
    trim_trailing_punct,
};

verus! {

/// The name extracted from a message: the token immediately following the
/// first (case-folded) occurrence of "my name is", with trailing punctuation
/// stripped; nothing when the phrase is absent or no token follows it.
pub open spec fn extracted_name(m: Seq<char>) -> Option<Seq<char>> {
    let p = find_from(lower(m), "my name is"@, 0);
    if p < 0 {
        None
    } else {
        let tok = first_token_from(m, p + 10);
        if tok.len() == 0 {
            None
        } else {
            Some(trim_trailing_punct(tok))
        }
    }
}

/// The ordered fact list extracted from a message. Each rule fires
/// independently of the others; every fact is marked to be remembered.
pub open spec fn extracted_facts(m: Seq<char>) -> Seq<FactV> {
    let lm = lower(m);
    let name_part: Seq<FactV> = match extracted_name(m) {
        Some(nm) => seq![
            FactV {
                fact: "User's name is "@ + nm,
                confidence: 90,
                fact_type: FactType::PersonalInfo,
                should_remember: true,
            },
        ],
        None => Seq::empty(),
    };
    let work_part: Seq<FactV> = if contains_sub(lm, "i work"@) || contains_sub(lm, "i'm a"@) {
        seq![
            FactV {
                fact: m,
                confidence: 70,
                fact_type: FactType::PersonalInfo,
                should_remember: true,
            },
        ]
    } else {
        Seq::empty()
    };
    let like_part: Seq<FactV> = if contains_sub(lm, "i like"@) || contains_sub(lm, "i prefer"@) {
        seq![
            FactV {
                fact: m,
                confidence: 80,
                fact_type: FactType::Preference,
                should_remember: true,
            },
        ]
    } else {
        Seq::empty()
    };
    let goal_part: Seq<FactV> = if contains_sub(lm, "my goal"@) || contains_sub(lm, "i want to"@) {
        seq![
            FactV {
                fact: m,
                confidence: 80,
                fact_type: FactType::Goal,
                should_remember: true,
            },
        ]
    } else {
        Seq::empty()
    };
    name_part + work_part + like_part + goal_part
}

/// Extraction is deterministic: equal messages yield equal fact lists,
/// however often the extractor runs.
pub proof fn lemma_extraction_deterministic(m1: Seq<char>, m2: Seq<char>)
    requires
        m1 == m2,
    ensures
        extracted_facts(m1) == extracted_facts(m2),
{
}

/// Every extracted fact has a clamped confidence and is marked to be
/// remembered.
pub proof fn lemma_extracted_facts_wf(m: Seq<char>)
    ensures
        forall|j: int|
            0 <= j < extracted_facts(m).len() ==> (#[trigger] extracted_facts(m)[j]).confidence
                <= 100 && extracted_facts(m)[j].should_remember,
{
}

/// Extracts the user's name from a message that introduces it.
pub fn extract_name_from_message(message: &str) -> (r: Option<String>)
    ensures
        match r {
            Some(s) => extracted_name(message@) == Some(s@),
            None => extracted_name(message@) is None,
        },
{
    let lowered = to_lower(message);
    proof {
        reveal_strlit("my name is");
    }
    match find_sub(lowered.as_str(), "my name is") {
        None => {
            proof {
                lemma_find_from_none(lower(message@), "my name is"@, 0);
            }
            None
        },
        Some(p) => {
            // Binds the message length so the position arithmetic below is
            // known to stay in range.
            let len = message.unicode_len();
            proof {
                lemma_find_from_first(lower(message@), "my name is"@, 0, p as int);
                assert(lower(message@).len() == message@.len());
                assert(p + 10 <= len);
            }
            if has_token_after(message, p + 10) {
                Some(token_after(message, p + 10))
            } else {
                None
            }
        },
    }
}

/// Runs every extraction rule over one message, in rule order.
pub fn extract_facts_from_message(message: &str) -> (r: Vec<ExtractedFact>)
    ensures
        crate::model::fact_views(r@) == extracted_facts(message@),
{
    let mut facts: Vec<ExtractedFact> = Vec::new();
    let lowered = to_lower(message);
    let lstr = lowered.as_str();
    if let Some(name) = extract_name_from_message(message) {
        let mut fact_text = String::from_str("User's name is ");
        fact_text.append(name.as_str());
        facts.push(ExtractedFact {
            fact: fact_text,
            confidence: 90,
            fact_type: FactType::PersonalInfo,
            should_remember: true,
        });
    }
    if contains_str(lstr, "i work") || contains_str(lstr, "i'm a") {
        facts.push(ExtractedFact {
            fact: String::from_str(message),
            confidence: 70,
            fact_type: FactType::PersonalInfo,
            should_remember: true,
        });
    }
    if contains_str(lstr, "i like") || contains_str(lstr, "i prefer") {
        facts.push(ExtractedFact {
            fact: String::from_str(message),
            confidence: 80,
            fact_type: FactType::Preference,
            should_remember: true,
        });
    }
    if contains_str(lstr, "my goal") || contains_str(lstr, "i want to") {
        facts.push(ExtractedFact {
            fact: String::from_str(message),
            confidence: 80,
            fact_type: FactType::Goal,
            should_remember: true,
        });
    }
    proof {
        assert(crate::model::fact_views(facts@) =~= extracted_facts(message@));
    }
    facts
}

} // verus!
