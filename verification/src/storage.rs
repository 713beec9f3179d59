use vstd::prelude::*;

use crate::ids::random_id;
use crate::tabs::clone_opt_string;

verus! {

// ---------------------------------------------------------------------------
// Settings
// ---------------------------------------------------------------------------

/// Durable user preferences, as the key-value settings store holds them.
/// The store itself is an external collaborator; this crate only owns the
/// folding of stored key-value rows into a `Settings` value and back.
#[derive(Debug, PartialEq, Eq)]
pub struct Settings {
    pub theme: String,
    pub default_search_engine: String,
    pub ai_provider: String,
    pub ai_model: String,
    pub agent_mode_enabled: bool,
}

impl Clone for Settings {
    fn clone(&self) -> (r: Self)
        ensures
            r == *self,
    {
        Settings {
            theme: self.theme.clone(),
            default_search_engine: self.default_search_engine.clone(),
            ai_provider: self.ai_provider.clone(),
            ai_model: self.ai_model.clone(),
            agent_mode_enabled: self.agent_mode_enabled,
        }
    }
}

impl Default for Settings {
    /// The defaults the store is seeded with.
    fn default() -> (s: Self)
        ensures
            s.theme@ == "light"@,
            s.default_search_engine@ == "google"@,
            s.ai_provider@ == "openai"@,
            s.ai_model@ == "gpt-4o"@,
            !s.agent_mode_enabled,
    {
        Settings {
            theme: "light".to_owned(),
            default_search_engine: "google".to_owned(),
            ai_provider: "openai".to_owned(),
            ai_model: "gpt-4o".to_owned(),
            agent_mode_enabled: false,
        }
    }
}

/// `s` with the stored row `(key, value)` folded in; unknown keys change
/// nothing, and the agent-mode flag is set exactly when its stored text is
/// `true`.
pub open spec fn apply_setting(s: Settings, key: Seq<char>, value: String) -> Settings {
    if key == "theme"@ {
        Settings { theme: value, ..s }
    } else if key == "default_search_engine"@ {
        Settings { default_search_engine: value, ..s }
    } else if key == "ai_provider"@ {
        Settings { ai_provider: value, ..s }
    } else if key == "ai_model"@ {
        Settings { ai_model: value, ..s }
    } else if key == "agent_mode_enabled"@ {
        Settings { agent_mode_enabled: value@ == "true"@, ..s }
    } else {
        s
    }
}

/// `base` with every row of `pairs` folded in, first to last.
pub open spec fn settings_after(base: Settings, pairs: Seq<(String, String)>) -> Settings
    decreases pairs.len(),
{
    if pairs.len() == 0 {
        base
    } else {
        settings_after(apply_setting(base, pairs.first().0@, pairs.first().1), pairs.drop_first())
    }
}

/// Fold the stored key-value rows into `base`, first to last. The storage
/// layer reads the rows; this computes what they mean.
pub fn settings_from_pairs(base: Settings, pairs: &Vec<(String, String)>) -> (s: Settings)
    ensures
        s == settings_after(base, pairs@),
{
    let theme_key: String = "theme".to_owned();
    let engine_key: String = "default_search_engine".to_owned();
    let provider_key: String = "ai_provider".to_owned();
    let model_key: String = "ai_model".to_owned();
    let agent_key: String = "agent_mode_enabled".to_owned();
    let true_text: String = "true".to_owned();
    let n = pairs.len();
    let mut s = base;
    let mut k: usize = 0;
    proof {
        assert(pairs@.skip(0) =~= pairs@);
    }
    while k < n
        invariant
            n == pairs@.len(),
            0 <= k <= n,
            settings_after(base, pairs@) == settings_after(s, pairs@.skip(k as int)),
            theme_key@ == "theme"@,
            engine_key@ == "default_search_engine"@,
            provider_key@ == "ai_provider"@,
            model_key@ == "ai_model"@,
            agent_key@ == "agent_mode_enabled"@,
            true_text@ == "true"@,
        decreases n - k,
    {
        let ghost s_before = s;
        let key = &pairs[k].0;
        if *key == theme_key {
            s.theme = pairs[k].1.clone();
        } else if *key == engine_key {
            s.default_search_engine = pairs[k].1.clone();
        } else if *key == provider_key {
            s.ai_provider = pairs[k].1.clone();
        } else if *key == model_key {
            s.ai_model = pairs[k].1.clone();
        } else if *key == agent_key {
            s.agent_mode_enabled = pairs[k].1 == true_text;
        }
        proof {
            assert(s == apply_setting(s_before, pairs@[k as int].0@, pairs@[k as int].1));
            assert(pairs@.skip(k as int).first() == pairs@[k as int]);
            assert(pairs@.skip(k as int).drop_first() =~= pairs@.skip(k as int + 1));
        }
        k = k + 1;
    }
    proof {
        assert(pairs@.skip(n as int).len() == 0);
    }
    s
}

/// The five key-value rows that persist `s`, in the order the store writes
/// them; the agent-mode flag is written as the text `true` or `false`.
pub fn settings_to_pairs(s: &Settings) -> (v: Vec<(String, String)>)
    ensures
        v@.len() == 5,
        v@[0].0@ == "theme"@ && v@[0].1 == s.theme,
        v@[1].0@ == "default_search_engine"@ && v@[1].1 == s.default_search_engine,
        v@[2].0@ == "ai_provider"@ && v@[2].1 == s.ai_provider,
        v@[3].0@ == "ai_model"@ && v@[3].1 == s.ai_model,
        v@[4].0@ == "agent_mode_enabled"@ && v@[4].1@ == (if s.agent_mode_enabled {
            "true"@
        } else {
            "false"@
        }),
{
    let mut v: Vec<(String, String)> = Vec::new();
    v.push(("theme".to_owned(), s.theme.clone()));
    v.push(("default_search_engine".to_owned(), s.default_search_engine.clone()));
    v.push(("ai_provider".to_owned(), s.ai_provider.clone()));
    v.push(("ai_model".to_owned(), s.ai_model.clone()));
    let flag: String = if s.agent_mode_enabled {
        "true".to_owned()
    } else {
        "false".to_owned()
    };
    v.push(("agent_mode_enabled".to_owned(), flag));
    v
}

// ---------------------------------------------------------------------------
// Agent conversations
// ---------------------------------------------------------------------------

/// One utterance of a stored agent conversation.
#[derive(Debug, PartialEq, Eq)]
pub struct ConversationMessage {
    pub role: String,
    pub content: String,
    pub timestamp: String,
}

impl Clone for ConversationMessage {
    fn clone(&self) -> (r: Self)
        ensures
            r == *self,
    {
        ConversationMessage {
            role: self.role.clone(),
            content: self.content.clone(),
            timestamp: self.timestamp.clone(),
        }
    }
}

/// A stored agent conversation: its identity, the tab it belongs to, the
/// model provider, and the messages exchanged so far.
#[derive(Debug, PartialEq, Eq)]
pub struct Conversation {
    pub id: String,
    pub tab_id: Option<String>,
    pub model_provider: String,
    pub messages: Vec<ConversationMessage>,
}

impl Clone for Conversation {
    fn clone(&self) -> (r: Self)
        ensures
            r.id == self.id,
            r.tab_id == self.tab_id,
            r.model_provider == self.model_provider,
            r.messages@ == self.messages@,
    {
        let messages = self.messages.clone();
        proof {
            assert forall|i: int| 0 <= i < self.messages@.len() implies messages@[i]
                == self.messages@[i] by {}
            assert(messages@ =~= self.messages@);
        }
        Conversation {
            id: self.id.clone(),
            tab_id: clone_opt_string(&self.tab_id),
            model_provider: self.model_provider.clone(),
            messages,
        }
    }
}

/// A fresh, empty conversation under a newly drawn id. The storage layer
/// persists it afterwards.
pub fn create_conversation(tab_id: Option<String>, model_provider: String) -> (c: Conversation)
    ensures
        c.tab_id == tab_id,
        c.model_provider == model_provider,
        c.messages@.len() == 0,
        c.id@.len() == 36,
{
    Conversation { id: random_id(), tab_id, model_provider, messages: Vec::new() }
}

/// The conversation a fetched row stands for. The stored message list
/// arrives already decoded, or absent when its stored text could not be
/// decoded; an absent list falls back to no messages rather than failing.
pub fn conversation_from_row(
    id: String,
    tab_id: Option<String>,
    model_provider: String,
    messages: Option<Vec<ConversationMessage>>,
) -> (c: Conversation)
    ensures
        c.id == id,
        c.tab_id == tab_id,
        c.model_provider == model_provider,
        match messages {
            Some(m) => c.messages@ == m@,
            None => c.messages@.len() == 0,
        },
{
    Conversation {
        id,
        tab_id,
        model_provider,
        messages: match messages {
            Some(m) => m,
            None => Vec::new(),
        },
    }
}

/// Append one utterance to a conversation, leaving everything else of it
/// unchanged. The caller supplies the timestamp, since only it knows the
/// clock.
pub fn add_message_to_conversation(
    conversation: &mut Conversation,
    role: &str,
    content: &str,
    timestamp: String,
)
    ensures
        final(conversation).id == old(conversation).id,
        final(conversation).tab_id == old(conversation).tab_id,
        final(conversation).model_provider == old(conversation).model_provider,
        final(conversation).messages@.len() == old(conversation).messages@.len() + 1,
        forall|k: int|
            0 <= k < old(conversation).messages@.len() ==> final(conversation).messages@[k] == old(
                conversation,
            ).messages@[k],
        final(conversation).messages@.last().role@ == role@,
        final(conversation).messages@.last().content@ == content@,
        final(conversation).messages@.last().timestamp == timestamp,
{
    conversation.messages.push(
        ConversationMessage { role: role.to_owned(), content: content.to_owned(), timestamp },
    );
}

// ---------------------------------------------------------------------------
// History
// ---------------------------------------------------------------------------

/// One stored browsing-history row.
#[derive(Debug, PartialEq, Eq)]
pub struct HistoryEntry {
    pub id: i64,
    pub url: String,
    pub title: Option<String>,
    pub visit_count: i32,
    pub last_visit: String,
}

impl Clone for HistoryEntry {
    fn clone(&self) -> (r: Self)
        ensures
            r == *self,
    {
        HistoryEntry {
            id: self.id,
            url: self.url.clone(),
            title: clone_opt_string(&self.title),
            visit_count: self.visit_count,
            last_visit: self.last_visit.clone(),
        }
    }
}

/// What recording a visit asks of the history store: bump an existing row's
/// count, or insert a fresh row with one visit.
#[derive(Debug, PartialEq, Eq, Structural)]
pub enum HistoryWrite {
    UpdateExisting { id: i64, visit_count: i32 },
    InsertNew,
}

/// Decide how a visit to a url is recorded, from the row the store already
/// holds for it, if any: an existing row keeps its identity and counts one
/// more visit; otherwise a fresh row is inserted. The count stays in range
/// by the precondition.
pub fn plan_history_entry(existing: Option<(i64, i32)>) -> (r: HistoryWrite)
    requires
        existing matches Some(row) ==> row.1 < 0x7fff_ffff,
    ensures
        match existing {
            Some(row) => r == (HistoryWrite::UpdateExisting {
                id: row.0,
                visit_count: (row.1 + 1) as i32,
            }),
            None => r == HistoryWrite::InsertNew,
        },
{
    match existing {
        Some((id, visit_count)) => HistoryWrite::UpdateExisting { id, visit_count: visit_count + 1 },
        None => HistoryWrite::InsertNew,
    }
}

// ---------------------------------------------------------------------------
// Bookmarks
// ---------------------------------------------------------------------------

/// One stored bookmark row.
#[derive(Debug, PartialEq, Eq)]
pub struct Bookmark {
    pub id: i64,
    pub url: String,
    pub title: String,
    pub folder_id: Option<i64>,
    pub created_at: String,
}

impl Clone for Bookmark {
    fn clone(&self) -> (r: Self)
        ensures
            r == *self,
    {
        Bookmark {
            id: self.id,
            url: self.url.clone(),
            title: self.title.clone(),
            folder_id: self.folder_id,
            created_at: self.created_at.clone(),
        }
    }
}

/// The bookmark value a successful insert hands back, from the row id the
/// store assigned and the creation time the caller read from its clock.
pub fn bookmark_from_insert(
    id: i64,
    url: &str,
    title: &str,
    folder_id: Option<i64>,
    created_at: String,
) -> (b: Bookmark)
    ensures
        b.id == id,
        b.url@ == url@,
        b.title@ == title@,
        b.folder_id == folder_id,
        b.created_at == created_at,
{
    Bookmark { id, url: url.to_owned(), title: title.to_owned(), folder_id, created_at }
}

} // verus!
