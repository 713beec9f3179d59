use aether::{greet, mock_agent_reply, BrowserError};

#[test]
fn greeting_names_the_caller() {
    let r = greet("Ada");
    assert_eq!(r.message, "Welcome to Aether, Ada. Browse lightly. Think deeply.");
}

#[test]
fn mock_reply_echoes_the_request() {
    let r = mock_agent_reply("hello there", "openai", "gpt-4o");
    assert_eq!(
        r,
        "I received your message: 'hello there' (Provider: openai, Model: gpt-4o). \
         Full AI integration coming soon!"
    );
}

#[test]
fn error_messages_carry_their_kind() {
    assert_eq!(BrowserError::Database("d".to_string()).message(), "Database error: d");
    assert_eq!(BrowserError::Cdp("c".to_string()).message(), "CDP error: c");
    assert_eq!(BrowserError::Network("n".to_string()).message(), "Network error: n");
    assert_eq!(
        BrowserError::Configuration("x".to_string()).message(),
        "Configuration error: x"
    );
    assert_eq!(BrowserError::NotFound("y".to_string()).message(), "Not found: y");
}
