//! The data model: per-user knowledge graphs, memory nodes, edges, profiles,
//! learning statistics, conversation records and the transient extraction and
//! strategy types.
//!
//! Scores that conceptually range over `[0, 1]` are held in hundredths
//! (`0..=100`); `score_wf` is the clamping invariant. Timestamps are
//! nanoseconds.
use vstd::prelude::*;

verus! {

/// The largest value of a score held in hundredths: stands for `1.0`.
pub const SCORE_ONE: u32 = 100;

/// The clamping invariant of a score held in hundredths.
pub open spec fn score_wf(s: u32) -> bool {
    s <= SCORE_ONE
}

/// What kind of thing a memory node records.
#[derive(Clone, Copy, PartialEq, Eq, Structural, Debug)]
pub enum MemoryNodeType {
    Fact,
    Preference,
    Goal,
    Relationship,
    Experience,
    Knowledge,
    Context,
}

/// The display label of a node type.
pub open spec fn node_type_label(t: MemoryNodeType) -> Seq<char> {
    match t {
        MemoryNodeType::Fact => "Fact"@,
        MemoryNodeType::Preference => "Preference"@,
        MemoryNodeType::Goal => "Goal"@,
        MemoryNodeType::Relationship => "Relationship"@,
        MemoryNodeType::Experience => "Experience"@,
        MemoryNodeType::Knowledge => "Knowledge"@,
        MemoryNodeType::Context => "Context"@,
    }
}

impl MemoryNodeType {
    /// The display label used when a node is listed in a prompt.
    pub fn to_string(&self) -> (r: &'static str)
        ensures
            r@ == node_type_label(*self),
    {
        match self {
            MemoryNodeType::Fact => "Fact",
            MemoryNodeType::Preference => "Preference",
            MemoryNodeType::Goal => "Goal",
            MemoryNodeType::Relationship => "Relationship",
            MemoryNodeType::Experience => "Experience",
            MemoryNodeType::Knowledge => "Knowledge",
            MemoryNodeType::Context => "Context",
        }
    }
}

/// The category of an extracted fact; maps one-to-one onto a node type.
#[derive(Clone, Copy, PartialEq, Eq, Structural, Debug)]
pub enum FactType {
    PersonalInfo,
    Preference,
    Goal,
    Relationship,
    Experience,
    Knowledge,
}

/// The node type that a fact of the given type becomes when remembered.
pub open spec fn fact_node_type(t: FactType) -> MemoryNodeType {
    match t {
        FactType::PersonalInfo => MemoryNodeType::Fact,
        FactType::Preference => MemoryNodeType::Preference,
        FactType::Goal => MemoryNodeType::Goal,
        FactType::Relationship => MemoryNodeType::Relationship,
        FactType::Experience => MemoryNodeType::Experience,
        FactType::Knowledge => MemoryNodeType::Knowledge,
    }
}

/// One discrete remembered fact about a user. Nodes are never deleted:
/// there is no eviction policy in this design, so a graph only grows.
pub struct MemoryNode {
    /// Unique within the owning graph; embeds the user identity and the
    /// creation time.
    pub id: String,
    pub content: String,
    pub node_type: MemoryNodeType,
    /// Hundredths; inherits the confidence of the extracted fact.
    pub importance_score: u32,
    pub created_at: u64,
    pub last_accessed: u64,
    pub access_count: u32,
    pub tags: Vec<String>,
    pub related_conversations: Vec<String>,
}

/// A memory node seen as plain mathematical values.
#[verifier::ext_equal]
pub struct MemoryNodeV {
    pub id: Seq<char>,
    pub content: Seq<char>,
    pub node_type: MemoryNodeType,
    pub importance_score: u32,
    pub created_at: u64,
    pub last_accessed: u64,
    pub access_count: u32,
    pub tags: Seq<Seq<char>>,
    pub related_conversations: Seq<Seq<char>>,
}

impl View for MemoryNode {
    type V = MemoryNodeV;

    open spec fn view(&self) -> MemoryNodeV {
        MemoryNodeV {
            id: self.id@,
            content: self.content@,
            node_type: self.node_type,
            importance_score: self.importance_score,
            created_at: self.created_at,
            last_accessed: self.last_accessed,
            access_count: self.access_count,
            tags: self.tags@.map_values(|s: String| s@),
            related_conversations: self.related_conversations@.map_values(|s: String| s@),
        }
    }
}

/// The nodes of a list, seen as plain values.
pub open spec fn node_views(s: Seq<MemoryNode>) -> Seq<MemoryNodeV> {
    s.map_values(|n: MemoryNode| n@)
}

impl MemoryNode {
    /// The node's scores are clamped.
    pub open spec fn wf(&self) -> bool {
        score_wf(self.importance_score)
    }
}

impl Clone for MemoryNode {
    fn clone(&self) -> (r: Self)
        ensures
            r@ == self@,
    {
        MemoryNode {
            id: self.id.clone(),
            content: self.content.clone(),
            node_type: self.node_type,
            importance_score: self.importance_score,
            created_at: self.created_at,
            last_accessed: self.last_accessed,
            access_count: self.access_count,
            tags: clone_strings(&self.tags),
            related_conversations: clone_strings(&self.related_conversations),
        }
    }
}

/// Clones a list of strings, preserving it exactly.
pub fn clone_strings(v: &Vec<String>) -> (r: Vec<String>)
    ensures
        r@ == v@,
{
    let mut r: Vec<String> = Vec::new();
    let mut i: usize = 0;
    while i < v.len()
        invariant
            i <= v@.len(),
            r@ == v@.take(i as int),
        decreases v@.len() - i,
    {
        r.push(v[i].clone());
        proof {
            assert(v@.take(i + 1) =~= v@.take(i as int).push(v@[i as int]));
        }
        i = i + 1;
    }
    proof {
        assert(v@.take(v@.len() as int) =~= v@);
    }
    r
}

/// How two memory nodes relate.
#[derive(Clone, Copy, PartialEq, Eq, Structural, Debug)]
pub enum RelationshipType {
    Related,
    CausedBy,
    LeadsTo,
    PartOf,
    OppositeOf,
    ExampleOf,
    UsedFor,
}

/// A directed edge between two memory nodes of the same graph; a dangling
/// edge is invalid. Extraction never emits edges on its own — the field
/// exists for manual population.
pub struct KnowledgeEdge {
    pub from_node: String,
    pub to_node: String,
    pub relationship_type: RelationshipType,
    /// Hundredths.
    pub strength: u32,
    pub created_at: u64,
}

impl KnowledgeEdge {
    pub open spec fn wf(&self) -> bool {
        score_wf(self.strength)
    }
}

/// The sentiment recorded with a conversation record.
#[derive(Clone, Copy, PartialEq, Eq, Structural, Debug)]
pub enum Sentiment {
    Positive,
    Neutral,
    Negative,
    Excited,
    Frustrated,
    Curious,
}

#[derive(Clone, Copy, PartialEq, Eq, Structural, Debug)]
pub enum FormalityLevel {
    VeryFormal,
    Formal,
    Casual,
    VeryCasual,
}

impl Default for FormalityLevel {
    fn default() -> (r: Self)
        ensures
            r == FormalityLevel::Casual,
    {
        FormalityLevel::Casual
    }
}

#[derive(Clone, Copy, PartialEq, Eq, Structural, Debug)]
pub enum DetailLevel {
    Brief,
    Moderate,
    Detailed,
    Comprehensive,
}

impl Default for DetailLevel {
    fn default() -> (r: Self)
        ensures
            r == DetailLevel::Moderate,
    {
        DetailLevel::Moderate
    }
}

#[derive(Clone, Copy, PartialEq, Eq, Structural, Debug)]
pub enum TechnicalLevel {
    Beginner,
    Intermediate,
    Advanced,
    Expert,
}

impl Default for TechnicalLevel {
    fn default() -> (r: Self)
        ensures
            r == TechnicalLevel::Intermediate,
    {
        TechnicalLevel::Intermediate
    }
}

#[derive(Clone, Copy, PartialEq, Eq, Structural, Debug)]
pub enum ResponseLength {
    Short,
    Medium,
    Long,
    Variable,
}

impl Default for ResponseLength {
    fn default() -> (r: Self)
        ensures
            r == ResponseLength::Medium,
    {
        ResponseLength::Medium
    }
}

/// How the user likes to be spoken to; every level defaults to a mid-range
/// value.
#[derive(Clone, Copy, PartialEq, Eq, Structural, Debug)]
pub struct CommunicationStyle {
    pub formality_level: FormalityLevel,
    pub detail_preference: DetailLevel,
    pub humor_preference: bool,
    pub technical_level: TechnicalLevel,
    pub emoji_usage: bool,
}

impl Default for CommunicationStyle {
    fn default() -> (r: Self)
        ensures
            r == (CommunicationStyle {
                formality_level: FormalityLevel::Casual,
                detail_preference: DetailLevel::Moderate,
                humor_preference: false,
                technical_level: TechnicalLevel::Intermediate,
                emoji_usage: false,
            }),
    {
        CommunicationStyle {
            formality_level: FormalityLevel::Casual,
            detail_preference: DetailLevel::Moderate,
            humor_preference: false,
            technical_level: TechnicalLevel::Intermediate,
            emoji_usage: false,
        }
    }
}

/// One goal the user is pursuing.
pub struct PersonalGoal {
    pub goal: String,
    pub category: String,
    pub target_date: Option<u64>,
    /// Hundredths.
    pub progress: u32,
    /// Hundredths.
    pub importance: u32,
}

impl PersonalGoal {
    pub open spec fn wf(&self) -> bool {
        score_wf(self.progress) && score_wf(self.importance)
    }
}

/// A date the user cares about.
pub struct ImportantEvent {
    pub event: String,
    pub date: u64,
    /// Hundredths.
    pub importance: u32,
    pub category: String,
}

/// Someone in the user's life.
pub struct PersonalRelationship {
    pub name: String,
    pub relationship_type: String,
    pub context: String,
    /// Hundredths.
    pub importance: u32,
}

/// What the user does for work.
pub struct WorkContext {
    pub job_title: Option<String>,
    pub company: Option<String>,
    pub industry: Option<String>,
    pub current_projects: Vec<String>,
    pub skills: Vec<String>,
}

/// Aggregates over past conversations.
pub struct ConversationPatterns {
    /// Hundredths of a message.
    pub avg_session_length: u32,
    pub common_topics: Vec<String>,
    pub question_types: Vec<(String, u32)>,
    /// Hours of the day when the user is most active.
    pub time_patterns: Vec<u32>,
}

/// Flags describing the responses the user prefers.
#[derive(Clone, Copy, PartialEq, Eq, Structural, Debug)]
pub struct ResponsePreferences {
    pub prefers_examples: bool,
    pub prefers_step_by_step: bool,
    pub prefers_quick_answers: bool,
    pub prefers_detailed_explanations: bool,
}

impl Default for ResponsePreferences {
    fn default() -> (r: Self)
        ensures
            r == (ResponsePreferences {
                prefers_examples: false,
                prefers_step_by_step: false,
                prefers_quick_answers: false,
                prefers_detailed_explanations: false,
            }),
    {
        ResponsePreferences {
            prefers_examples: false,
            prefers_step_by_step: false,
            prefers_quick_answers: false,
            prefers_detailed_explanations: false,
        }
    }
}

/// A task mentioned in an ongoing conversation thread.
pub struct Task {
    pub description: String,
    pub status: TaskStatus,
    pub created_at: u64,
    pub due_date: Option<u64>,
}

#[derive(Clone, Copy, PartialEq, Eq, Structural, Debug)]
pub enum TaskStatus {
    Active,
    Completed,
    Paused,
    Cancelled,
}

/// A named thing mentioned in conversation.
pub struct Entity {
    pub name: String,
    pub entity_type: EntityType,
    pub context: String,
}

#[derive(Clone, Copy, PartialEq, Eq, Structural, Debug)]
pub enum EntityType {
    Person,
    Company,
    Project,
    Technology,
    Location,
    Date,
    Other,
}

/// Everything known about the user besides the memory nodes themselves.
pub struct UserProfile {
    pub name: Option<String>,
    pub preferred_name: Option<String>,
    pub communication_style: CommunicationStyle,
    pub personality_traits: Vec<String>,
    pub interests: Vec<String>,
    pub expertise_areas: Vec<String>,
    pub goals: Vec<PersonalGoal>,
    pub important_dates: Vec<ImportantEvent>,
    pub relationships: Vec<PersonalRelationship>,
    pub work_context: Option<WorkContext>,
    /// Knowledge domain paired with an expertise score in hundredths.
    pub knowledge_domains: Vec<(String, u32)>,
    pub conversation_patterns: ConversationPatterns,
    pub response_preferences: ResponsePreferences,
}

impl UserProfile {
    /// Every score of the profile is clamped.
    pub open spec fn wf(&self) -> bool {
        &&& forall|i: int| 0 <= i < self.goals@.len() ==> (#[trigger] self.goals@[i]).wf()
        &&& forall|i: int|
            0 <= i < self.knowledge_domains@.len() ==> score_wf(
                (#[trigger] self.knowledge_domains@[i]).1,
            )
    }

    /// The freshly created profile: nothing known yet, mid-range style.
    pub open spec fn is_default(&self) -> bool {
        &&& self.name is None
        &&& self.preferred_name is None
        &&& self.communication_style == (CommunicationStyle {
            formality_level: FormalityLevel::Casual,
            detail_preference: DetailLevel::Moderate,
            humor_preference: false,
            technical_level: TechnicalLevel::Intermediate,
            emoji_usage: false,
        })
        &&& self.personality_traits@.len() == 0
        &&& self.interests@.len() == 0
        &&& self.expertise_areas@.len() == 0
        &&& self.goals@.len() == 0
        &&& self.important_dates@.len() == 0
        &&& self.relationships@.len() == 0
        &&& self.work_context is None
        &&& self.knowledge_domains@.len() == 0
        &&& self.conversation_patterns.common_topics@.len() == 0
        &&& self.response_preferences == (ResponsePreferences {
            prefers_examples: false,
            prefers_step_by_step: false,
            prefers_quick_answers: false,
            prefers_detailed_explanations: false,
        })
    }
}

impl Default for UserProfile {
    fn default() -> (r: Self)
        ensures
            r.is_default(),
            r.wf(),
    {
        UserProfile {
            name: None,
            preferred_name: None,
            communication_style: CommunicationStyle::default(),
            personality_traits: Vec::new(),
            interests: Vec::new(),
            expertise_areas: Vec::new(),
            goals: Vec::new(),
            important_dates: Vec::new(),
            relationships: Vec::new(),
            work_context: None,
            knowledge_domains: Vec::new(),
            conversation_patterns: ConversationPatterns {
                avg_session_length: 0,
                common_topics: Vec::new(),
                question_types: Vec::new(),
                time_patterns: Vec::new(),
            },
            response_preferences: ResponsePreferences::default(),
        }
    }
}

/// Per-user learning statistics; only ever incremented.
pub struct LearningHistory {
    pub interaction_count: u32,
    /// Topic paired with how often it came up.
    pub topics_discussed: Vec<(String, u32)>,
    pub preferred_response_length: ResponseLength,
    /// Hundredths.
    pub question_asking_frequency: u32,
    /// Hundredths.
    pub learning_speed: u32,
    pub last_major_update: u64,
}

impl LearningHistory {
    pub open spec fn is_default(&self) -> bool {
        &&& self.interaction_count == 0
        &&& self.topics_discussed@.len() == 0
        &&& self.preferred_response_length == ResponseLength::Medium
        &&& self.question_asking_frequency == 0
        &&& self.learning_speed == 0
        &&& self.last_major_update == 0
    }
}

impl Default for LearningHistory {
    fn default() -> (r: Self)
        ensures
            r.is_default(),
    {
        LearningHistory {
            interaction_count: 0,
            topics_discussed: Vec::new(),
            preferred_response_length: ResponseLength::Medium,
            question_asking_frequency: 0,
            learning_speed: 0,
            last_major_update: 0,
        }
    }
}

/// An ongoing conversation thread, keyed by a caller-supplied thread id.
pub struct ConversationContext {
    pub thread_id: String,
    pub topic: String,
    pub related_memories: Vec<String>,
    pub user_sentiment: Sentiment,
    pub ongoing_tasks: Vec<Task>,
    pub mentioned_entities: Vec<Entity>,
    pub last_message_timestamp: u64,
}

/// A fact the extractor found in one message; transient, becomes a
/// `MemoryNode` only when `should_remember` is set.
pub struct ExtractedFact {
    pub fact: String,
    /// Hundredths.
    pub confidence: u32,
    pub fact_type: FactType,
    pub should_remember: bool,
}

/// An extracted fact seen as plain mathematical values.
#[verifier::ext_equal]
pub struct FactV {
    pub fact: Seq<char>,
    pub confidence: u32,
    pub fact_type: FactType,
    pub should_remember: bool,
}

impl View for ExtractedFact {
    type V = FactV;

    open spec fn view(&self) -> FactV {
        FactV {
            fact: self.fact@,
            confidence: self.confidence,
            fact_type: self.fact_type,
            should_remember: self.should_remember,
        }
    }
}

/// The facts of a list, seen as plain values.
pub open spec fn fact_views(s: Seq<ExtractedFact>) -> Seq<FactV> {
    s.map_values(|f: ExtractedFact| f@)
}

impl Clone for ExtractedFact {
    fn clone(&self) -> (r: Self)
        ensures
            r@ == self@,
    {
        ExtractedFact {
            fact: self.fact.clone(),
            confidence: self.confidence,
            fact_type: self.fact_type,
            should_remember: self.should_remember,
        }
    }
}

#[derive(Debug)]
pub enum ResponseStrategy {
    ConfidentAnswer { confidence: u32, sources: Vec<String> },
    InquiryFirst { question: String, why_asking: String },
    PartialAnswer { known_info: String, clarification_needed: String },
    LearningOpportunity { suggestion: String },
}

/// A response strategy seen as plain mathematical values.
#[verifier::ext_equal]
pub enum StrategyV {
    ConfidentAnswer { confidence: u32, sources: Seq<Seq<char>> },
    InquiryFirst { question: Seq<char>, why_asking: Seq<char> },
    PartialAnswer { known_info: Seq<char>, clarification_needed: Seq<char> },
    LearningOpportunity { suggestion: Seq<char> },
}

impl View for ResponseStrategy {
    type V = StrategyV;

    open spec fn view(&self) -> StrategyV {
        match self {
            ResponseStrategy::ConfidentAnswer { confidence, sources } => StrategyV::ConfidentAnswer {
                confidence: *confidence,
                sources: sources@.map_values(|s: String| s@),
            },
            ResponseStrategy::InquiryFirst { question, why_asking } => StrategyV::InquiryFirst {
                question: question@,
                why_asking: why_asking@,
            },
            ResponseStrategy::PartialAnswer {
                known_info,
                clarification_needed,
            } => StrategyV::PartialAnswer {
                known_info: known_info@,
                clarification_needed: clarification_needed@,
            },
            ResponseStrategy::LearningOpportunity { suggestion } => StrategyV::LearningOpportunity {
                suggestion: suggestion@,
            },
        }
    }
}

/// One recorded exchange, with everything learned from it.
pub struct ChatRecord {
    pub role: String,
    pub content: String,
    pub timestamp: u64,
    pub context_thread_id: Option<String>,
    pub extracted_facts: Vec<ExtractedFact>,
    pub referenced_memories: Vec<String>,
    pub user_sentiment: Option<Sentiment>,
    pub response_strategy: Option<ResponseStrategy>,
}

/// One user's complete memory state.
pub struct UserGraph {
    pub user_profile: UserProfile,
    pub memory_nodes: Vec<MemoryNode>,
    pub relationships: Vec<KnowledgeEdge>,
    pub learning_patterns: LearningHistory,
    pub context_threads: Vec<ConversationContext>,
    pub last_updated: u64,
}

impl UserGraph {
    /// The node at `i` owns the id `id`.
    pub open spec fn node_has_id(&self, i: int, id: Seq<char>) -> bool {
        0 <= i < self.memory_nodes@.len() && self.memory_nodes@[i].id@ == id
    }

    /// Data-model invariant: node ids are unique, all scores are clamped, and
    /// no edge dangles.
    pub open spec fn wf(&self) -> bool {
        &&& forall|i: int, j: int|
            0 <= i < j < self.memory_nodes@.len() ==> (#[trigger] self.memory_nodes@[i]).id@ != (
            #[trigger] self.memory_nodes@[j]).id@
        &&& forall|i: int| 0 <= i < self.memory_nodes@.len() ==> (#[trigger] self.memory_nodes@[i]).wf()
        &&& forall|i: int|
            0 <= i < self.relationships@.len() ==> (#[trigger] self.relationships@[i]).wf()
        &&& forall|i: int|
            0 <= i < self.relationships@.len() ==> (exists|k: int|
                self.node_has_id(k, (#[trigger] self.relationships@[i]).from_node@)) && (exists|
                k: int,
            |
                self.node_has_id(k, self.relationships@[i].to_node@))
        &&& self.user_profile.wf()
    }

    /// The freshly created graph for a new user.
    pub open spec fn is_empty_graph(&self, now: u64) -> bool {
        &&& self.user_profile.is_default()
        &&& self.memory_nodes@.len() == 0
        &&& self.relationships@.len() == 0
        &&& self.learning_patterns.is_default()
        &&& self.context_threads@.len() == 0
        &&& self.last_updated == now
    }

    /// Builds the graph a user starts with.
    pub fn empty_graph(now: u64) -> (r: Self)
        ensures
            r.is_empty_graph(now),
            r.wf(),
    {
        UserGraph {
            user_profile: UserProfile::default(),
            memory_nodes: Vec::new(),
            relationships: Vec::new(),
            learning_patterns: LearningHistory::default(),
            context_threads: Vec::new(),
            last_updated: now,
        }
    }
}

/// Process-wide counters.
#[derive(Clone, Copy, PartialEq, Eq, Structural, Debug)]
pub struct ServiceMetrics {
    pub total_queries: u64,
    pub total_cycles_consumed: u64,
    pub total_users: u64,
    pub storage_used_bytes: u64,
    pub uptime_start: u64,
    pub knowledge_nodes_created: u64,
    pub learning_events: u64,
}

impl Default for ServiceMetrics {
    fn default() -> (r: Self)
        ensures
            r == (ServiceMetrics {
                total_queries: 0,
                total_cycles_consumed: 0,
                total_users: 0,
                storage_used_bytes: 0,
                uptime_start: 0,
                knowledge_nodes_created: 0,
                learning_events: 0,
            }),
    {
        ServiceMetrics {
            total_queries: 0,
            total_cycles_consumed: 0,
            total_users: 0,
            storage_used_bytes: 0,
            uptime_start: 0,
            knowledge_nodes_created: 0,
            learning_events: 0,
        }
    }
}

/// The read-only dashboard handed to a user.
#[derive(Debug)]
pub struct UserDashboard {
    pub conversation_count: u64,
    pub knowledge_nodes_count: u64,
    /// Thousandths; unbounded above, saturating at `u64::MAX`.
    pub memory_strength: u64,
    /// Thousandths; always clamped to `0..=1000`.
    pub learning_progress: u32,
    pub days_since_first_interaction: u64,
}

/// A caller-supplied partial profile update.
pub struct UserProfileUpdate {
    pub name: Option<String>,
    pub interests: Option<Vec<String>>,
    pub goals: Option<Vec<PersonalGoal>>,
}

} // verus!
