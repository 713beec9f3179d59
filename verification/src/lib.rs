//! Tab and process lifecycle manager for a desktop shell around a locally
//! installed Chromium-family browser.
//!
//! The crate tracks a set of logical tabs (identity, ordering, single active
//! tab) and plans the launch of the browser process; the surrounding
//! application performs the actual spawning, filesystem work and command
//! dispatch and feeds the outcomes back in.

mod commands;
mod error;
mod ids;
mod launch;
mod locator;
mod manager;
mod storage;
mod tabs;

pub use commands::{greet, mock_agent_reply, AgentMessageRequest, AgentMessageResponse, BrowserState, GreetingResponse};
pub use error::BrowserError;
pub use launch::{
    build_launch_command, decimal_digits, digit_char, launch_args, u16_decimal, LaunchCommand,
    LaunchDirective,
};
pub use locator::{
    candidate_executables, find_browser_executable, probe_candidate, select_executable,
    BrowserCandidate, HostOs,
};
pub use manager::{
    activated, all_deactivated, deactivated, id_in, ids_distinct, index_of_id,
    is_first_min_position, is_not_found_err, lemma_at_most_one_active, lemma_index_of_id_unique,
    lemma_nonempty_has_active, max_id_len, not_found_msg, sorted_by_position, BrowserManager,
};
pub use storage::{
    add_message_to_conversation, apply_setting, bookmark_from_insert, conversation_from_row,
    create_conversation, plan_history_entry, settings_after, settings_from_pairs,
    settings_to_pairs, Bookmark, Conversation, ConversationMessage, HistoryEntry, HistoryWrite,
    Settings,
};
pub use tabs::{NavigationRequest, Tab, TabId};
