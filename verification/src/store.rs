//! The Memory Store: owns the mapping from user identity to that user's
//! knowledge graph, the conversation logs, the generation credentials and
//! the process-wide counters. Graphs come into existence only through
//! `ensure_graph`; all learning flows through one commit operation.
//!
//! User identities are plain strings here; the caller's identity and whether
//! it is administrative are established outside and passed in.
use vstd::prelude::*;

use crate::model::{ChatRecord, MemoryNode, ServiceMetrics, UserGraph};

verus! {

/// The keys of an association list are pairwise distinct.
pub open spec fn keys_unique<V>(s: Seq<(String, V)>) -> bool {
    forall|i: int, j: int| 0 <= i < j < s.len() ==> (#[trigger] s[i]).0@ != (#[trigger] s[j]).0@
}

/// Some entry carries the key `k`.
pub open spec fn has_key<V>(s: Seq<(String, V)>, k: Seq<char>) -> bool {
    exists|i: int| 0 <= i < s.len() && (#[trigger] s[i]).0@ == k
}

/// The index of the entry carrying `k` (meaningful only when `has_key`).
pub open spec fn key_idx<V>(s: Seq<(String, V)>, k: Seq<char>) -> int {
    choose|i: int| 0 <= i < s.len() && (#[trigger] s[i]).0@ == k
}

/// The value stored under `k` (meaningful only when `has_key`).
pub open spec fn val_of<V>(s: Seq<(String, V)>, k: Seq<char>) -> V {
    s[key_idx(s, k)].1
}

/// With unique keys, an entry holding `k` at `i` pins the lookup down.
pub proof fn lemma_key_at<V>(s: Seq<(String, V)>, k: Seq<char>, i: int)
    requires
        keys_unique(s),
        0 <= i < s.len(),
        s[i].0@ == k,
    ensures
        has_key(s, k),
        key_idx(s, k) == i,
        val_of(s, k) == s[i].1,
{
    let j = key_idx(s, k);
    if j != i {
        if j < i {
            assert(s[j].0@ != s[i].0@);
        } else {
            assert(s[i].0@ != s[j].0@);
        }
    }
}

/// Finds the entry carrying the given key, if any.
fn find_key<V>(v: &Vec<(String, V)>, k: &String) -> (r: Option<usize>)
    ensures
        match r {
            Some(i) => i < v@.len() && v@[i as int].0@ == k@,
            None => !has_key(v@, k@),
        },
{
    let mut i: usize = 0;
    while i < v.len()
        invariant
            i <= v@.len(),
            forall|j: int| 0 <= j < i ==> (#[trigger] v@[j]).0@ != k@,
        decreases v@.len() - i,
    {
        if v[i].0 == *k {
            return Some(i);
        }
        i = i + 1;
    }
    None
}

/// Finds the position of a user's graph in the store's graph table.
pub(crate) fn find_graph_index(s: &MemoryStore, user: &String) -> (r: Option<usize>)
    requires
        s.wf(),
    ensures
        match r {
            Some(i) => i < s.graphs@.len() && s.graphs@[i as int].0@ == user@ && s.has_user(user@)
                && s.graph_of(user@) == s.graphs@[i as int].1 && key_idx(s.graphs@, user@)
                == i as int,
            None => !s.has_user(user@),
        },
{
    let r = find_key(&s.graphs, user);
    proof {
        if let Some(i) = r {
            lemma_key_at(s.graphs@, user@, i as int);
        }
    }
    r
}

/// Only the subject user or an administrative caller may touch a graph.
pub open spec fn authorized(caller: Seq<char>, user: Seq<char>, caller_is_admin: bool) -> bool {
    caller == user || caller_is_admin
}

/// The whole service state.
pub struct MemoryStore {
    /// The generation credential; empty means none is configured.
    pub api_key: String,
    /// Credentials by provider name.
    pub api_keys: Vec<(String, String)>,
    /// One knowledge graph per user identity.
    pub graphs: Vec<(String, UserGraph)>,
    /// One conversation log per user identity.
    pub conversations: Vec<(String, Vec<ChatRecord>)>,
    /// Process-wide counters.
    pub metrics: ServiceMetrics,
}

impl MemoryStore {
    /// Store invariant: each table keys its entries uniquely and every graph
    /// is well formed.
    pub open spec fn wf(&self) -> bool {
        &&& keys_unique(self.graphs@)
        &&& keys_unique(self.conversations@)
        &&& keys_unique(self.api_keys@)
        &&& forall|i: int| 0 <= i < self.graphs@.len() ==> (#[trigger] self.graphs@[i]).1.wf()
    }

    /// Whether this user has ever interacted.
    pub open spec fn has_user(&self, u: Seq<char>) -> bool {
        has_key(self.graphs@, u)
    }

    /// The user's graph (meaningful only when `has_user`).
    pub open spec fn graph_of(&self, u: Seq<char>) -> UserGraph {
        val_of(self.graphs@, u)
    }

    /// Whether this user has a conversation log.
    pub open spec fn has_log(&self, u: Seq<char>) -> bool {
        has_key(self.conversations@, u)
    }

    /// The user's conversation log (meaningful only when `has_log`).
    pub open spec fn log_of(&self, u: Seq<char>) -> Seq<ChatRecord> {
        val_of(self.conversations@, u)@
    }

    /// A fresh store: no users, no logs, no credentials, zeroed counters.
    pub fn new() -> (r: Self)
        ensures
            r.wf(),
            r.api_key@.len() == 0,
            r.api_keys@.len() == 0,
            r.graphs@.len() == 0,
            r.conversations@.len() == 0,
            r.metrics == (ServiceMetrics {
                total_queries: 0,
                total_cycles_consumed: 0,
                total_users: 0,
                storage_used_bytes: 0,
                uptime_start: 0,
                knowledge_nodes_created: 0,
                learning_events: 0,
            }),
    {
        MemoryStore {
            api_key: String::new(),
            api_keys: Vec::new(),
            graphs: Vec::new(),
            conversations: Vec::new(),
            metrics: ServiceMetrics::default(),
        }
    }

    /// What `ensure_graph` does to the store: nothing when the user already
    /// has a graph, else one fresh empty graph appended for that user.
    pub open spec fn ensure_graph_post(pre: Self, post: Self, u: Seq<char>, now: u64) -> bool {
        if pre.has_user(u) {
            post == pre
        } else {
            &&& post.graphs@.len() == pre.graphs@.len() + 1
            &&& post.graphs@.subrange(0, pre.graphs@.len() as int) == pre.graphs@
            &&& post.graphs@.last().0@ == u
            &&& post.graphs@.last().1.is_empty_graph(now)
            &&& post.api_key == pre.api_key
            &&& post.api_keys == pre.api_keys
            &&& post.conversations == pre.conversations
            &&& post.metrics == pre.metrics
        }
    }

    /// Creates an empty graph for the user if absent; the only way a graph
    /// comes into existence. Idempotent: once the graph exists, a repeated
    /// call is a no-op.
    pub fn ensure_graph(&mut self, user: &String, now: u64)
        requires
            old(self).wf(),
        ensures
            final(self).wf(),
            Self::ensure_graph_post(*old(self), *final(self), user@, now),
            final(self).has_user(user@),
    {
        match find_key(&self.graphs, user) {
            Some(i) => {
                proof {
                    lemma_key_at(self.graphs@, user@, i as int);
                }
            },
            None => {
                let ghost pre = self.graphs@;
                self.graphs.push((user.clone(), UserGraph::empty_graph(now)));
                proof {
                    assert(pre.push(self.graphs@.last()).subrange(0, pre.len() as int) =~= pre);
                    assert(self.graphs@.last().0@ == user@);
                    assert forall|i: int, j: int|
                        0 <= i < j < self.graphs@.len() implies (#[trigger] self.graphs@[i]).0@
                        != (#[trigger] self.graphs@[j]).0@ by {
                        if j == self.graphs@.len() - 1 {
                            assert(self.graphs@[i] == pre[i]);
                            assert(!has_key(pre, user@));
                        }
                    }
                    lemma_key_at(self.graphs@, user@, self.graphs@.len() - 1);
                }
            },
        }
    }

    /// Idempotent graph creation: running `ensure_graph` a second time for
    /// the same user leaves the store — in particular the graph's node and
    /// edge counts — exactly as one call left it.
    pub proof fn lemma_ensure_graph_idempotent(
        s0: Self,
        s1: Self,
        s2: Self,
        u: Seq<char>,
        now1: u64,
        now2: u64,
    )
        requires
            Self::ensure_graph_post(s0, s1, u, now1),
            s1.has_user(u),
            Self::ensure_graph_post(s1, s2, u, now2),
        ensures
            s2 == s1,
            s2.has_user(u) && s2.graph_of(u) == s1.graph_of(u),
    {
    }

    /// Read access to a user's graph. A caller who is neither the subject
    /// user nor an administrator learns nothing, not even whether the graph
    /// exists.
    pub fn get_user_knowledge_graph<'a>(
        &'a self,
        caller: &String,
        caller_is_admin: bool,
        user: &String,
    ) -> (r: Option<&'a UserGraph>)
        requires
            self.wf(),
        ensures
            !authorized(caller@, user@, caller_is_admin) ==> r is None,
            authorized(caller@, user@, caller_is_admin) ==> match r {
                Some(g) => self.has_user(user@) && *g == self.graph_of(user@),
                None => !self.has_user(user@),
            },
    {
        if !(*caller == *user || caller_is_admin) {
            return None;
        }
        match find_key(&self.graphs, user) {
            Some(i) => {
                proof {
                    lemma_key_at(self.graphs@, user@, i as int);
                }
                Some(&self.graphs[i].1)
            },
            None => None,
        }
    }
    /// Up to `limit` (default fifty) of the user's memory nodes, in node
    /// order. An unauthorized caller gets an empty list, indistinguishable
    /// from an absent graph.
    pub fn get_user_memories(
        &self,
        caller: &String,
        caller_is_admin: bool,
        user: &String,
        limit: Option<u32>,
    ) -> (r: Vec<MemoryNode>)
        requires
            self.wf(),
        ensures
            !authorized(caller@, user@, caller_is_admin) ==> r@.len() == 0,
            authorized(caller@, user@, caller_is_admin) && !self.has_user(user@) ==> r@.len() == 0,
            authorized(caller@, user@, caller_is_admin) && self.has_user(user@)
                ==> crate::model::node_views(r@) == ({
                let nodes = crate::model::node_views(self.graph_of(user@).memory_nodes@);
                let lim: int = match limit {
                    Some(l) => l as int,
                    None => 50,
                };
                nodes.take(if lim <= nodes.len() {
                    lim
                } else {
                    nodes.len() as int
                })
            }),
    {
        if !(*caller == *user || caller_is_admin) {
            return Vec::new();
        }
        match find_key(&self.graphs, user) {
            None => Vec::new(),
            Some(i) => {
                proof {
                    lemma_key_at(self.graphs@, user@, i as int);
                }
                let nodes = &self.graphs[i].1.memory_nodes;
                let lim: usize = match limit {
                    Some(l) => l as usize,
                    None => 50,
                };
                let n = if lim <= nodes.len() {
                    lim
                } else {
                    nodes.len()
                };
                let mut r: Vec<MemoryNode> = Vec::new();
                let mut j: usize = 0;
                while j < n
                    invariant
                        j <= n <= nodes@.len(),
                        r@.len() == j,
                        forall|m: int| 0 <= m < j ==> (#[trigger] r@[m])@ == nodes@[m]@,
                    decreases n - j,
                {
                    r.push(nodes[j].clone());
                    j = j + 1;
                }
                proof {
                    assert(crate::model::node_views(r@) =~= crate::model::node_views(
                        nodes@,
                    ).take(n as int));
                }
                r
            },
        }
    }

    /// What a profile update does to one graph: the name and interests are
    /// replaced where the update supplies them; goals in the update are
    /// carried but not applied; everything else but the update time stays.
    pub open spec fn profile_update_applied(
        pre: UserGraph,
        post: UserGraph,
        upd: crate::model::UserProfileUpdate,
        now: u64,
    ) -> bool {
        &&& post.user_profile.name == (match upd.name {
            Some(n) => Some(n),
            None => pre.user_profile.name,
        })
        &&& post.user_profile.interests == (match upd.interests {
            Some(v) => v,
            None => pre.user_profile.interests,
        })
        &&& post.user_profile.preferred_name == pre.user_profile.preferred_name
        &&& post.user_profile.communication_style == pre.user_profile.communication_style
        &&& post.user_profile.personality_traits == pre.user_profile.personality_traits
        &&& post.user_profile.expertise_areas == pre.user_profile.expertise_areas
        &&& post.user_profile.goals == pre.user_profile.goals
        &&& post.user_profile.important_dates == pre.user_profile.important_dates
        &&& post.user_profile.relationships == pre.user_profile.relationships
        &&& post.user_profile.work_context == pre.user_profile.work_context
        &&& post.user_profile.knowledge_domains == pre.user_profile.knowledge_domains
        &&& post.user_profile.conversation_patterns == pre.user_profile.conversation_patterns
        &&& post.user_profile.response_preferences == pre.user_profile.response_preferences
        &&& post.memory_nodes == pre.memory_nodes
        &&& post.relationships == pre.relationships
        &&& post.learning_patterns == pre.learning_patterns
        &&& post.context_threads == pre.context_threads
        &&& post.last_updated == now
    }

    /// Applies a partial profile update for the user. No graph is created
    /// implicitly: updating a user who never interacted is an error.
    pub fn update_user_profile(
        &mut self,
        caller: &String,
        caller_is_admin: bool,
        user: &String,
        profile_update: crate::model::UserProfileUpdate,
        now: u64,
    ) -> (r: Result<String, String>)
        requires
            old(self).wf(),
        ensures
            final(self).wf(),
            !authorized(caller@, user@, caller_is_admin) ==> *final(self) == *old(self) && (match r {
                Err(e) => e@ == "Unauthorized"@,
                Ok(_) => false,
            }),
            authorized(caller@, user@, caller_is_admin) && !old(self).has_user(user@)
                ==> *final(self) == *old(self) && (match r {
                Err(e) => e@ == "User knowledge graph not found"@,
                Ok(_) => false,
            }),
            authorized(caller@, user@, caller_is_admin) && old(self).has_user(user@) ==> ({
                &&& match r {
                    Ok(m) => m@ == "Profile updated successfully"@,
                    Err(_) => false,
                }
                &&& final(self).graphs@.len() == old(self).graphs@.len()
                &&& forall|j: int|
                    0 <= j < old(self).graphs@.len() && j != key_idx(old(self).graphs@, user@)
                        ==> final(self).graphs@[j] == old(self).graphs@[j]
                &&& final(self).graphs@[key_idx(old(self).graphs@, user@)].0 == old(
                    self,
                ).graphs@[key_idx(old(self).graphs@, user@)].0
                &&& final(self).has_user(user@)
                &&& Self::profile_update_applied(
                    old(self).graph_of(user@),
                    final(self).graph_of(user@),
                    profile_update,
                    now,
                )
                &&& final(self).api_key == old(self).api_key
                &&& final(self).api_keys == old(self).api_keys
                &&& final(self).conversations == old(self).conversations
                &&& final(self).metrics == old(self).metrics
            }),
    {
        if !(*caller == *user || caller_is_admin) {
            return Err(String::from_str("Unauthorized"));
        }
        match find_key(&self.graphs, user) {
            None => Err(String::from_str("User knowledge graph not found")),
            Some(i) => {
                proof {
                    lemma_key_at(old(self).graphs@, user@, i as int);
                }
                let entry = &mut self.graphs[i];
                if let Some(n) = profile_update.name {
                    entry.1.user_profile.name = Some(n);
                }
                if let Some(v) = profile_update.interests {
                    entry.1.user_profile.interests = v;
                }
                entry.1.last_updated = now;
                proof {
                    assert forall|a: int, b: int|
                        0 <= a < b < self.graphs@.len() implies (#[trigger] self.graphs@[a]).0@ != (
                    #[trigger] self.graphs@[b]).0@ by {
                        assert(old(self).graphs@[a].0@ != old(self).graphs@[b].0@);
                    }
                    lemma_key_at(self.graphs@, user@, i as int);
                    assert forall|j: int|
                        0 <= j < self.graphs@.len() implies (#[trigger] self.graphs@[j]).1.wf() by {
                        assert(old(self).graphs@[j].1.wf());
                        if j != i {
                            assert(self.graphs@[j] == old(self).graphs@[j]);
                        } else {
                            let pre = old(self).graphs@[i as int].1;
                            let post = self.graphs@[i as int].1;
                            assert(post.memory_nodes == pre.memory_nodes);
                            assert(post.relationships == pre.relationships);
                            assert(post.user_profile.goals == pre.user_profile.goals);
                            assert(post.user_profile.knowledge_domains
                                == pre.user_profile.knowledge_domains);
                            assert forall|a: int|
                                0 <= a < post.relationships@.len() implies (exists|k: int|
                                    post.node_has_id(
                                        k,
                                        (#[trigger] post.relationships@[a]).from_node@,
                                    )) && (exists|k: int|
                                    post.node_has_id(k, post.relationships@[a].to_node@)) by {
                                let k1 = choose|k: int|
                                    pre.node_has_id(k, pre.relationships@[a].from_node@);
                                let k2 = choose|k: int|
                                    pre.node_has_id(k, pre.relationships@[a].to_node@);
                                assert(post.node_has_id(k1, post.relationships@[a].from_node@));
                                assert(post.node_has_id(k2, post.relationships@[a].to_node@));
                            }
                        }
                    }
                }
                Ok(String::from_str("Profile updated successfully"))
            },
        }
    }

    /// Records the generation credential under the fixed provider name. Only
    /// an administrative caller may do so; anyone else is refused and the
    /// store stays as it was.
    pub fn set_api_key(&mut self, caller_is_admin: bool, key: String) -> (r: Result<(), String>)
        requires
            old(self).wf(),
        ensures
            final(self).wf(),
            !caller_is_admin ==> *final(self) == *old(self) && (match r {
                Err(e) => e@ == "Only a controller can set the API key."@,
                Ok(_) => false,
            }),
            caller_is_admin ==> ({
                &&& r is Ok
                &&& final(self).api_key@ == key@
                &&& has_key(final(self).api_keys@, "gemini"@)
                &&& val_of(final(self).api_keys@, "gemini"@)@ == key@
                &&& final(self).graphs == old(self).graphs
                &&& final(self).conversations == old(self).conversations
                &&& final(self).metrics == old(self).metrics
            }),
    {
        if !caller_is_admin {
            return Err(String::from_str("Only a controller can set the API key."));
        }
        self.api_key = key.clone();
        let provider = String::from_str("gemini");
        match find_key(&self.api_keys, &provider) {
            Some(i) => {
                proof {
                    lemma_key_at(self.api_keys@, "gemini"@, i as int);
                }
                let entry = &mut self.api_keys[i];
                entry.1 = key;
                proof {
                    assert forall|a: int, b: int|
                        0 <= a < b < self.api_keys@.len() implies (#[trigger] self.api_keys@[a]).0@
                        != (#[trigger] self.api_keys@[b]).0@ by {
                        assert(old(self).api_keys@[a].0@ != old(self).api_keys@[b].0@);
                    }
                    lemma_key_at(self.api_keys@, "gemini"@, i as int);
                }
            },
            None => {
                let ghost pre = self.api_keys@;
                self.api_keys.push((provider, key));
                proof {
                    assert forall|a: int, b: int|
                        0 <= a < b < self.api_keys@.len() implies (#[trigger] self.api_keys@[a]).0@
                        != (#[trigger] self.api_keys@[b]).0@ by {
                        if b == self.api_keys@.len() - 1 {
                            assert(self.api_keys@[a] == pre[a]);
                            assert(!has_key(pre, "gemini"@));
                        } else {
                            assert(pre[a].0@ != pre[b].0@);
                        }
                    }
                    lemma_key_at(self.api_keys@, "gemini"@, self.api_keys@.len() - 1);
                }
            },
        }
        Ok(())
    }

    /// The names of the providers a credential is recorded for.
    pub fn get_available_providers(&self) -> (r: Vec<String>)
        ensures
            r@.len() == self.api_keys@.len(),
            forall|j: int| 0 <= j < r@.len() ==> (#[trigger] r@[j])@ == self.api_keys@[j].0@,
    {
        let mut r: Vec<String> = Vec::new();
        let mut i: usize = 0;
        while i < self.api_keys.len()
            invariant
                i <= self.api_keys@.len(),
                r@.len() == i,
                forall|j: int| 0 <= j < i ==> (#[trigger] r@[j])@ == self.api_keys@[j].0@,
            decreases self.api_keys@.len() - i,
        {
            r.push(self.api_keys[i].0.clone());
            i = i + 1;
        }
        r
    }

    /// The record appended for one exchange: the assistant's reply, the
    /// facts learned from the user's message, the chosen strategy, and a
    /// sentiment recorded as neutral.
    pub open spec fn chat_record_matches(
        rec: ChatRecord,
        resp: Seq<char>,
        tid: Option<Seq<char>>,
        msg: Seq<char>,
        strat: crate::model::StrategyV,
        now: u64,
    ) -> bool {
        &&& rec.role@ == "assistant"@
        &&& rec.content@ == resp
        &&& rec.timestamp == now
        &&& (match rec.context_thread_id {
            Some(t) => tid == Some(t@),
            None => tid is None,
        })
        &&& crate::model::fact_views(rec.extracted_facts@) == crate::extract::extracted_facts(msg)
        &&& rec.referenced_memories@.len() == 0
        &&& rec.user_sentiment == Some(crate::model::Sentiment::Neutral)
        &&& (match rec.response_strategy {
            Some(s) => s@ == strat,
            None => false,
        })
    }

    /// What one commit does to the whole store: the subject user's graph
    /// learns the extracted facts (no graph is created when none exists),
    /// the exchange is appended to that user's conversation log, and the
    /// query and learning-event counters rise by one; nothing else moves.
    pub open spec fn commit_post(
        pre: Self,
        post: Self,
        u: Seq<char>,
        msg: Seq<char>,
        resp: Seq<char>,
        tid: Option<Seq<char>>,
        strat: crate::model::StrategyV,
        now: u64,
    ) -> bool {
        &&& (if pre.has_user(u) {
            &&& post.graphs@.len() == pre.graphs@.len()
            &&& forall|j: int|
                0 <= j < pre.graphs@.len() && j != key_idx(pre.graphs@, u)
                    ==> post.graphs@[j] == pre.graphs@[j]
            &&& post.graphs@[key_idx(pre.graphs@, u)].0 == pre.graphs@[key_idx(pre.graphs@, u)].0
            &&& post.has_user(u)
            &&& crate::learn::learned(
                pre.graph_of(u),
                post.graph_of(u),
                crate::extract::extracted_facts(msg),
                crate::learn::commit_node_id(u, now),
                now,
            )
        } else {
            post.graphs == pre.graphs
        })
        &&& (if pre.has_log(u) {
            &&& post.conversations@.len() == pre.conversations@.len()
            &&& forall|j: int|
                0 <= j < pre.conversations@.len() && j != key_idx(pre.conversations@, u)
                    ==> post.conversations@[j] == pre.conversations@[j]
            &&& post.conversations@[key_idx(pre.conversations@, u)].0 == pre.conversations@[key_idx(
                pre.conversations@,
                u,
            )].0
            &&& post.has_log(u)
            &&& post.log_of(u).len() == pre.log_of(u).len() + 1
            &&& post.log_of(u).drop_last() == pre.log_of(u)
            &&& Self::chat_record_matches(post.log_of(u).last(), resp, tid, msg, strat, now)
        } else {
            &&& post.conversations@.len() == pre.conversations@.len() + 1
            &&& post.conversations@.subrange(0, pre.conversations@.len() as int)
                == pre.conversations@
            &&& post.conversations@.last().0@ == u
            &&& post.conversations@.last().1@.len() == 1
            &&& Self::chat_record_matches(post.conversations@.last().1@[0], resp, tid, msg, strat, now)
        })
        &&& post.metrics.total_queries == (if pre.metrics.total_queries < u64::MAX {
            pre.metrics.total_queries + 1
        } else {
            pre.metrics.total_queries as int
        })
        &&& post.metrics.learning_events == (if pre.metrics.learning_events < u64::MAX {
            pre.metrics.learning_events + 1
        } else {
            pre.metrics.learning_events as int
        })
        &&& post.metrics.total_cycles_consumed == pre.metrics.total_cycles_consumed
        &&& post.metrics.total_users == pre.metrics.total_users
        &&& post.metrics.storage_used_bytes == pre.metrics.storage_used_bytes
        &&& post.metrics.uptime_start == pre.metrics.uptime_start
        &&& post.metrics.knowledge_nodes_created == pre.metrics.knowledge_nodes_created
        &&& post.api_key == pre.api_key
        &&& post.api_keys == pre.api_keys
    }

    /// The single write path for learning: extracts facts from the user's
    /// message, commits remembered ones into the graph, appends the exchange
    /// to the conversation log and bumps the counters. The commit is one
    /// uninterrupted mutation: readers see the store before or after it,
    /// never between.
    pub fn save_conversation_with_learning(
        &mut self,
        user: &String,
        user_message: &str,
        ai_response: String,
        context_thread_id: Option<String>,
        response_strategy: crate::model::ResponseStrategy,
        now: u64,
    )
        requires
            old(self).wf(),
        ensures
            final(self).wf(),
            Self::commit_post(
                *old(self),
                *final(self),
                user@,
                user_message@,
                ai_response@,
                match context_thread_id {
                    Some(t) => Some(t@),
                    None => None,
                },
                response_strategy@,
                now,
            ),
    {
        let facts = crate::extract::extract_facts_from_message(user_message);
        proof {
            crate::extract::lemma_extracted_facts_wf(user_message@);
            assert forall|j: int| 0 <= j < facts@.len() implies (#[trigger] facts@[j]).confidence
                <= 100 by {
                assert(crate::model::fact_views(facts@)[j] == facts@[j]@);
            }
        }
        match find_key(&self.graphs, user) {
            Some(i) => {
                proof {
                    lemma_key_at(old(self).graphs@, user@, i as int);
                }
                let node_id = crate::learn::build_node_id(user, now);
                let entry = &mut self.graphs[i];
                crate::learn::apply_learning(&mut entry.1, &facts, &node_id, now);
                proof {
                    assert forall|a: int, b: int|
                        0 <= a < b < self.graphs@.len() implies (#[trigger] self.graphs@[a]).0@ != (
                    #[trigger] self.graphs@[b]).0@ by {
                        assert(old(self).graphs@[a].0@ != old(self).graphs@[b].0@);
                    }
                    lemma_key_at(self.graphs@, user@, i as int);
                    assert forall|j: int|
                        0 <= j < self.graphs@.len() implies (#[trigger] self.graphs@[j]).1.wf() by {
                        if j != i {
                            assert(self.graphs@[j] == old(self).graphs@[j]);
                            assert(old(self).graphs@[j].1.wf());
                        }
                    }
                }
            },
            None => {},
        }
        let record = ChatRecord {
            role: String::from_str("assistant"),
            content: ai_response,
            timestamp: now,
            context_thread_id,
            extracted_facts: facts,
            referenced_memories: Vec::new(),
            user_sentiment: Some(crate::model::Sentiment::Neutral),
            response_strategy: Some(response_strategy),
        };
        let ghost mid = *self;
        match find_key(&self.conversations, user) {
            Some(ci) => {
                proof {
                    lemma_key_at(mid.conversations@, user@, ci as int);
                }
                let entry = &mut self.conversations[ci];
                entry.1.push(record);
                proof {
                    assert forall|a: int, b: int|
                        0 <= a < b < self.conversations@.len() implies (
                    #[trigger] self.conversations@[a]).0@ != (
                    #[trigger] self.conversations@[b]).0@ by {
                        assert(mid.conversations@[a].0@ != mid.conversations@[b].0@);
                    }
                    lemma_key_at(self.conversations@, user@, ci as int);
                    assert(self.conversations@[ci as int].1@.drop_last()
                        =~= mid.conversations@[ci as int].1@);
                }
            },
            None => {
                let ghost pre = self.conversations@;
                let mut log: Vec<ChatRecord> = Vec::new();
                log.push(record);
                self.conversations.push((user.clone(), log));
                proof {
                    assert(self.conversations@.subrange(0, pre.len() as int) =~= pre);
                    assert forall|a: int, b: int|
                        0 <= a < b < self.conversations@.len() implies (
                    #[trigger] self.conversations@[a]).0@ != (
                    #[trigger] self.conversations@[b]).0@ by {
                        if b == self.conversations@.len() - 1 {
                            assert(self.conversations@[a] == pre[a]);
                            assert(!has_key(pre, user@));
                        } else {
                            assert(pre[a].0@ != pre[b].0@);
                        }
                    }
                }
            },
        }
        if self.metrics.total_queries < u64::MAX {
            self.metrics.total_queries = self.metrics.total_queries + 1;
        }
        if self.metrics.learning_events < u64::MAX {
            self.metrics.learning_events = self.metrics.learning_events + 1;
        }
    }

    /// The dashboard shown to a user: conversation and node counts plus the
    /// derived metrics, all recomputed on demand. Only the subject user or
    /// an administrator may read it.
    pub fn get_user_dashboard(
        &self,
        caller: &String,
        caller_is_admin: bool,
        user: &String,
        now: u64,
    ) -> (r: Result<crate::model::UserDashboard, String>)
        requires
            self.wf(),
        ensures
            !authorized(caller@, user@, caller_is_admin) ==> (match r {
                Err(e) => e@ == "Unauthorized"@,
                Ok(_) => false,
            }),
            authorized(caller@, user@, caller_is_admin) ==> (match r {
                Ok(d) => {
                    &&& d.conversation_count == (if self.has_log(user@) {
                        self.log_of(user@).len() as int
                    } else {
                        0int
                    })
                    &&& d.knowledge_nodes_count == (if self.has_user(user@) {
                        self.graph_of(user@).memory_nodes@.len() as int
                    } else {
                        0int
                    })
                    &&& d.memory_strength == (if self.has_user(user@) {
                        let m = crate::metrics::memory_strength_milli(self.graph_of(user@));
                        if m <= u64::MAX {
                            m
                        } else {
                            u64::MAX as int
                        }
                    } else {
                        0int
                    })
                    &&& d.learning_progress == (if self.has_user(user@) {
                        crate::metrics::learning_progress_milli(self.graph_of(user@))
                    } else {
                        0int
                    })
                    &&& d.days_since_first_interaction == (if self.has_user(user@) {
                        crate::metrics::tenure_days(self.graph_of(user@), now)
                    } else {
                        0int
                    })
                },
                Err(_) => false,
            }),
    {
        if !(*caller == *user || caller_is_admin) {
            return Err(String::from_str("Unauthorized"));
        }
        let graph: Option<&UserGraph> = match find_key(&self.graphs, user) {
            Some(i) => {
                proof {
                    lemma_key_at(self.graphs@, user@, i as int);
                }
                Some(&self.graphs[i].1)
            },
            None => None,
        };
        let knowledge_nodes_count: u64 = match graph {
            Some(g) => g.memory_nodes.len() as u64,
            None => 0,
        };
        let conversation_count: u64 = match find_key(&self.conversations, user) {
            Some(i) => {
                proof {
                    lemma_key_at(self.conversations@, user@, i as int);
                }
                self.conversations[i].1.len() as u64
            },
            None => 0,
        };
        Ok(crate::model::UserDashboard {
            conversation_count,
            knowledge_nodes_count,
            memory_strength: crate::metrics::calculate_memory_strength(graph),
            learning_progress: crate::metrics::calculate_learning_progress(graph),
            days_since_first_interaction: crate::metrics::calculate_days_since_first_interaction(
                graph,
                now,
            ),
        })
    }

    /// The process-wide counters, as they stand.
    pub fn get_canister_metrics(&self) -> (r: ServiceMetrics)
        ensures
            r == self.metrics,
    {
        self.metrics
    }
}

} // verus!
