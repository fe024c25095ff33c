use std::collections::HashMap;

use pilfer::models::{AppContext, Message, PilferMessage, StyleHint, SystemMessage};
use pilfer::notices::{
    auth_failure_notice, authenticated_notice, connect_failure_notice, connected_notice,
    lookup_failure_notice, post_failure_notice, post_outcome_notice, post_rate_limited_notice,
    rate_limit_notice, session_end_notice, PostOutcome,
};
use pilfer::strutil::u64_to_string;

fn fresh_app() -> AppContext {
    AppContext {
        input: String::new(),
        name: "kayla".to_string(),
        messages: Vec::new(),
        users: HashMap::new(),
        rest_url: String::new(),
        gateway_url: String::new(),
        focused: true,
        users_list_enabled: true,
    }
}

#[test]
fn decimal_rendering_is_exact() {
    assert_eq!(u64_to_string(0), "0");
    assert_eq!(u64_to_string(7), "7");
    assert_eq!(u64_to_string(64), "64");
    assert_eq!(u64_to_string(30000), "30000");
    assert_eq!(u64_to_string(u64::MAX), u64::MAX.to_string());
}

#[test]
fn notice_texts_are_exact() {
    assert_eq!(
        connect_failure_notice("refused", 4),
        "Could not connect: refused, reconnecting in 4s (press Ctrl+C to exit)"
    );
    assert_eq!(auth_failure_notice("broken pipe"), "Could not authenticate: broken pipe");
    assert_eq!(rate_limit_notice(5000), "Rate limited, waiting 5s");
    assert_eq!(rate_limit_notice(1999), "Rate limited, waiting 1s");
    assert_eq!(session_end_notice("kicked", 8), "kicked, retrying in 8s");
    assert_eq!(lookup_failure_notice(5, "boom"), "Could not get user 5: boom");
    assert_eq!(connected_notice(), "Connected to Pandemonium");
    assert_eq!(authenticated_notice(), "Authenticated with Pandemonium!");
    assert_eq!(
        post_rate_limited_notice(3000),
        "System: You've been ratelimited, retry in 3s"
    );
    assert_eq!(
        post_failure_notice("got invalid response: eof"),
        "System: Couldn't send message: got invalid response: eof"
    );
}

#[test]
fn post_outcomes_land_in_the_log() {
    let mut app = fresh_app();
    post_outcome_notice(&mut app, PostOutcome::Sent);
    assert!(app.messages.is_empty());
    post_outcome_notice(&mut app, PostOutcome::RateLimited { retry_after_ms: 3000 });
    post_outcome_notice(&mut app, PostOutcome::Failed { desc: "eof".to_string() });
    assert_eq!(app.messages.len(), 2);
    assert_eq!(app.messages[0].1, StyleHint::Error);
    match &app.messages[1].0 {
        PilferMessage::System(sm) => {
            assert_eq!(sm.content, "System: Couldn't send message: eof")
        }
        other => panic!("wrong entry: {:?}", other),
    }
}

#[test]
fn display_lines_follow_the_entry_kind() {
    let chat = PilferMessage::Eludris(Message {
        author: "ben".to_string(),
        content: "hi there".to_string(),
    });
    assert_eq!(chat.display_line(), "[ben]: hi there");
    let system = PilferMessage::System(SystemMessage { content: "Connected".to_string() });
    assert_eq!(system.display_line(), "Connected");
}
