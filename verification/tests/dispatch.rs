use std::collections::HashMap;

use pilfer::codec::InboundEvent;
use pilfer::dispatch::{apply_user_lookup, handle_event, upsert_online_user, DispatchEffect};
use pilfer::models::{AppContext, Message, PilferMessage, Response, Status, StyleHint, User};

fn fresh_app(name: &str, focused: bool) -> AppContext {
    AppContext {
        input: String::new(),
        name: name.to_string(),
        messages: Vec::new(),
        users: HashMap::new(),
        rest_url: "http://localhost:7159".to_string(),
        gateway_url: "ws://localhost:7160".to_string(),
        focused,
        users_list_enabled: true,
    }
}

fn user(id: u64, name: &str, status: Status) -> User {
    User { id, username: name.to_string(), status }
}

#[test]
fn offline_upsert_never_adds_an_absent_id() {
    let mut users: HashMap<u64, User> = HashMap::new();
    upsert_online_user(&mut users, user(9, "zoe", Status::Offline));
    assert!(!users.contains_key(&9));
    assert!(users.is_empty());
}

#[test]
fn offline_upsert_leaves_a_present_record_alone() {
    let mut users: HashMap<u64, User> = HashMap::new();
    upsert_online_user(&mut users, user(9, "zoe", Status::Online));
    upsert_online_user(&mut users, user(9, "zoe", Status::Offline));
    // no insertion occurs: the stored record keeps its online status
    assert_eq!(users.get(&9).unwrap().status, Status::Online);
}

#[test]
fn online_upsert_stores_the_record() {
    let mut app = fresh_app("kayla", true);
    let eff = handle_event(&mut app, InboundEvent::UserUpdated {
        user: user(4, "ben", Status::Idle),
    });
    assert_eq!(eff, DispatchEffect::Continue);
    assert_eq!(app.users.get(&4).unwrap().username, "ben");
}

#[test]
fn presence_offline_removes_even_an_absent_id() {
    let mut app = fresh_app("kayla", true);
    app.users.insert(4, user(4, "ben", Status::Online));
    let eff = handle_event(&mut app, InboundEvent::PresenceUpdated {
        user_id: 4,
        status: Status::Offline,
    });
    assert_eq!(eff, DispatchEffect::Continue);
    assert!(!app.users.contains_key(&4));
    // absent id: a no-op, no error
    let eff = handle_event(&mut app, InboundEvent::PresenceUpdated {
        user_id: 77,
        status: Status::Offline,
    });
    assert_eq!(eff, DispatchEffect::Continue);
    assert!(app.users.is_empty());
}

#[test]
fn presence_updates_a_known_user_in_place() {
    let mut app = fresh_app("kayla", true);
    app.users.insert(4, user(4, "ben", Status::Online));
    let eff = handle_event(&mut app, InboundEvent::PresenceUpdated {
        user_id: 4,
        status: Status::Busy,
    });
    assert_eq!(eff, DispatchEffect::Continue);
    assert_eq!(app.users.get(&4).unwrap().status, Status::Busy);
    assert_eq!(app.users.get(&4).unwrap().username, "ben");
}

#[test]
fn presence_for_an_unknown_user_asks_for_a_lookup() {
    let mut app = fresh_app("kayla", true);
    let eff = handle_event(&mut app, InboundEvent::PresenceUpdated {
        user_id: 5,
        status: Status::Online,
    });
    assert_eq!(eff, DispatchEffect::LookupUser { user_id: 5, status: Status::Online });
    assert!(app.users.is_empty());
    assert!(app.messages.is_empty());
}

#[test]
fn lookup_success_stores_the_record_with_the_new_status() {
    let mut app = fresh_app("kayla", true);
    apply_user_lookup(
        &mut app,
        5,
        Status::Online,
        Response::Success(user(5, "ana", Status::Busy)),
    );
    assert_eq!(app.users.get(&5).unwrap().status, Status::Online);
    assert_eq!(app.users.get(&5).unwrap().username, "ana");
    assert!(app.messages.is_empty());
}

#[test]
fn lookup_failure_posts_a_notice_and_drops_the_event() {
    let mut app = fresh_app("kayla", true);
    apply_user_lookup(&mut app, 5, Status::Online, Response::Error("boom".to_string()));
    assert!(app.users.is_empty());
    assert_eq!(app.messages.len(), 1);
    match &app.messages[0].0 {
        PilferMessage::System(sm) => assert_eq!(sm.content, "Could not get user 5: boom"),
        other => panic!("wrong entry: {:?}", other),
    }
    assert_eq!(app.messages[0].1, StyleHint::Error);
}

#[test]
fn authenticated_seeds_the_online_users() {
    let mut app = fresh_app("kayla", true);
    let eff = handle_event(&mut app, InboundEvent::Authenticated {
        self_user: user(1, "kayla", Status::Online),
        online_users: vec![
            user(2, "ben", Status::Idle),
            user(2, "ben2", Status::Busy),
            user(3, "zoe", Status::Offline),
        ],
    });
    assert_eq!(eff, DispatchEffect::Continue);
    // the later entry for id 2 overwrote the earlier one
    assert_eq!(app.users.get(&2).unwrap().username, "ben2");
    assert_eq!(app.users.get(&1).unwrap().username, "kayla");
    // an offline entry is never seeded into the online map
    assert!(!app.users.contains_key(&3));
    assert_eq!(app.messages.len(), 1);
    match &app.messages[0].0 {
        PilferMessage::System(sm) => assert_eq!(sm.content, "Authenticated with Pandemonium!"),
        other => panic!("wrong entry: {:?}", other),
    }
    assert_eq!(app.messages[0].1, StyleHint::Info);
}

#[test]
fn message_appends_to_the_log_with_its_style() {
    let mut app = fresh_app("Kayla", true);
    let eff = handle_event(&mut app, InboundEvent::MessageCreated {
        message: Message { author: "ben".to_string(), content: "hey kAyLa!".to_string() },
    });
    assert_eq!(eff, DispatchEffect::Continue);
    assert_eq!(app.messages.len(), 1);
    assert_eq!(app.messages[0].1, StyleHint::Highlight);
    let eff = handle_event(&mut app, InboundEvent::MessageCreated {
        message: Message { author: "ben".to_string(), content: "hey K-ayla!".to_string() },
    });
    assert_eq!(eff, DispatchEffect::Continue);
    assert_eq!(app.messages[1].1, StyleHint::Plain);
}

#[test]
fn unfocused_message_asks_for_a_notification() {
    let mut app = fresh_app("kayla", false);
    let eff = handle_event(&mut app, InboundEvent::MessageCreated {
        message: Message { author: "ben".to_string(), content: "hi".to_string() },
    });
    assert_eq!(
        eff,
        DispatchEffect::Notify {
            summary: "New Pilfer message from ben".to_string(),
            body: "hi".to_string(),
        }
    );
}

#[test]
fn close_terminates_with_its_reason() {
    let mut app = fresh_app("kayla", true);
    let eff = handle_event(&mut app, InboundEvent::Close { reason: Some("kicked".to_string()) });
    assert_eq!(eff, DispatchEffect::Terminated { reason: Some("kicked".to_string()) });
    let eff = handle_event(&mut app, InboundEvent::Close { reason: None });
    assert_eq!(eff, DispatchEffect::Terminated { reason: None });
}

#[test]
fn ignored_events_change_nothing() {
    let mut app = fresh_app("kayla", true);
    for ev in [
        InboundEvent::Other,
        InboundEvent::Hello { heartbeat_interval: 1 },
        InboundEvent::RateLimit { wait_ms: 1 },
    ] {
        let eff = handle_event(&mut app, ev);
        assert_eq!(eff, DispatchEffect::Continue);
    }
    assert!(app.messages.is_empty());
    assert!(app.users.is_empty());
}

#[test]
fn offline_user_update_through_the_dispatcher_adds_nothing() {
    let mut app = fresh_app("kayla", true);
    let eff = handle_event(&mut app, InboundEvent::UserUpdated {
        user: user(9, "zoe", Status::Offline),
    });
    assert_eq!(eff, DispatchEffect::Continue);
    assert!(!app.users.contains_key(&9));
}
