use aether::{
    add_message_to_conversation, bookmark_from_insert, conversation_from_row, create_conversation,
    plan_history_entry, settings_from_pairs, settings_to_pairs, ConversationMessage, HistoryWrite,
    Settings,
};

#[test]
fn default_settings_match_seed_values() {
    let s = Settings::default();
    assert_eq!(s.theme, "light");
    assert_eq!(s.default_search_engine, "google");
    assert_eq!(s.ai_provider, "openai");
    assert_eq!(s.ai_model, "gpt-4o");
    assert!(!s.agent_mode_enabled);
}

#[test]
fn settings_rows_fold_over_defaults() {
    let pairs = vec![
        ("theme".to_string(), "dark".to_string()),
        ("ai_model".to_string(), "o3".to_string()),
        ("agent_mode_enabled".to_string(), "true".to_string()),
    ];
    let s = settings_from_pairs(Settings::default(), &pairs);
    assert_eq!(s.theme, "dark");
    assert_eq!(s.default_search_engine, "google");
    assert_eq!(s.ai_provider, "openai");
    assert_eq!(s.ai_model, "o3");
    assert!(s.agent_mode_enabled);
}

#[test]
fn unknown_settings_rows_are_ignored() {
    let pairs = vec![("font_size".to_string(), "12".to_string())];
    let s = settings_from_pairs(Settings::default(), &pairs);
    assert_eq!(s, Settings::default());
}

#[test]
fn agent_mode_parses_only_the_text_true() {
    let pairs = vec![("agent_mode_enabled".to_string(), "yes".to_string())];
    let s = settings_from_pairs(Settings::default(), &pairs);
    assert!(!s.agent_mode_enabled);
}

#[test]
fn later_settings_rows_win() {
    let pairs = vec![
        ("theme".to_string(), "dark".to_string()),
        ("theme".to_string(), "sepia".to_string()),
    ];
    let s = settings_from_pairs(Settings::default(), &pairs);
    assert_eq!(s.theme, "sepia");
}

#[test]
fn settings_write_five_rows() {
    let mut s = Settings::default();
    s.theme = "dark".to_string();
    s.agent_mode_enabled = true;
    let rows = settings_to_pairs(&s);
    assert_eq!(
        rows,
        vec![
            ("theme".to_string(), "dark".to_string()),
            ("default_search_engine".to_string(), "google".to_string()),
            ("ai_provider".to_string(), "openai".to_string()),
            ("ai_model".to_string(), "gpt-4o".to_string()),
            ("agent_mode_enabled".to_string(), "true".to_string()),
        ]
    );
}

#[test]
fn settings_survive_a_store_round_trip() {
    let mut s = Settings::default();
    s.default_search_engine = "duckduckgo".to_string();
    s.agent_mode_enabled = true;
    let rows = settings_to_pairs(&s);
    let back = settings_from_pairs(Settings::default(), &rows);
    assert_eq!(back, s);
}

#[test]
fn new_conversation_is_empty_with_uuid_id() {
    let c = create_conversation(Some("tab-1".to_string()), "openai".to_string());
    assert_eq!(c.id.len(), 36);
    assert_eq!(c.tab_id, Some("tab-1".to_string()));
    assert_eq!(c.model_provider, "openai");
    assert!(c.messages.is_empty());
}

#[test]
fn adding_a_message_appends_it() {
    let mut c = create_conversation(None, "openai".to_string());
    add_message_to_conversation(&mut c, "user", "hello", "2024-01-01T00:00:00Z".to_string());
    add_message_to_conversation(&mut c, "assistant", "hi", "2024-01-01T00:00:01Z".to_string());
    assert_eq!(c.messages.len(), 2);
    assert_eq!(c.messages[0].role, "user");
    assert_eq!(c.messages[0].content, "hello");
    assert_eq!(c.messages[1].role, "assistant");
    assert_eq!(c.messages[1].content, "hi");
    assert_eq!(c.messages[1].timestamp, "2024-01-01T00:00:01Z");
}

#[test]
fn fetched_conversation_keeps_decoded_messages() {
    let msg = ConversationMessage {
        role: "user".to_string(),
        content: "hello".to_string(),
        timestamp: "2024-01-01T00:00:00Z".to_string(),
    };
    let c = conversation_from_row(
        "conv-1".to_string(),
        None,
        "openai".to_string(),
        Some(vec![msg.clone()]),
    );
    assert_eq!(c.id, "conv-1");
    assert_eq!(c.messages, vec![msg]);
}

#[test]
fn undecodable_messages_fall_back_to_none() {
    let c = conversation_from_row("conv-2".to_string(), None, "openai".to_string(), None);
    assert!(c.messages.is_empty());
}

#[test]
fn repeat_visit_bumps_the_count() {
    let w = plan_history_entry(Some((41, 3)));
    assert_eq!(w, HistoryWrite::UpdateExisting { id: 41, visit_count: 4 });
}

#[test]
fn first_visit_inserts_a_row() {
    assert_eq!(plan_history_entry(None), HistoryWrite::InsertNew);
}

#[test]
fn bookmark_built_from_inserted_row() {
    let b = bookmark_from_insert(
        7,
        "https://example.com",
        "Example",
        Some(2),
        "2024-01-01T00:00:00Z".to_string(),
    );
    assert_eq!(b.id, 7);
    assert_eq!(b.url, "https://example.com");
    assert_eq!(b.title, "Example");
    assert_eq!(b.folder_id, Some(2));
    assert_eq!(b.created_at, "2024-01-01T00:00:00Z");
}
