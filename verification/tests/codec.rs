use pilfer::codec::{decode_text_frame, encode_text_frame, InboundEvent, OutboundEvent};
use pilfer::models::{Status, User};

#[test]
fn decodes_hello() {
    let ev = decode_text_frame("{\"op\":\"HELLO\",\"heartbeat_interval\":30000}");
    assert_eq!(ev, InboundEvent::Hello { heartbeat_interval: 30000 });
}

#[test]
fn decodes_rate_limit() {
    let ev = decode_text_frame("{\"op\":\"RATE_LIMIT\",\"wait\":5000}");
    assert_eq!(ev, InboundEvent::RateLimit { wait_ms: 5000 });
}

#[test]
fn decodes_authenticated() {
    let text = "{\"op\":\"AUTHENTICATED\",\
        \"user\":{\"id\":1,\"username\":\"kayla\",\"status\":\"ONLINE\"},\
        \"users\":[{\"id\":2,\"username\":\"ben\",\"status\":\"IDLE\"},\
                   {\"id\":3,\"username\":\"ana\",\"status\":\"BUSY\"}]}";
    let ev = decode_text_frame(text);
    assert_eq!(
        ev,
        InboundEvent::Authenticated {
            self_user: User { id: 1, username: "kayla".to_string(), status: Status::Online },
            online_users: vec![
                User { id: 2, username: "ben".to_string(), status: Status::Idle },
                User { id: 3, username: "ana".to_string(), status: Status::Busy },
            ],
        }
    );
}

#[test]
fn decodes_message_create() {
    let ev = decode_text_frame("{\"op\":\"MESSAGE_CREATE\",\"author\":\"ben\",\"content\":\"hi\"}");
    match ev {
        InboundEvent::MessageCreated { message } => {
            assert_eq!(message.author, "ben");
            assert_eq!(message.content, "hi");
        }
        other => panic!("wrong event: {:?}", other),
    }
}

#[test]
fn decodes_user_update() {
    let ev =
        decode_text_frame("{\"op\":\"USER_UPDATE\",\"id\":7,\"username\":\"zoe\",\"status\":\"OFFLINE\"}");
    assert_eq!(
        ev,
        InboundEvent::UserUpdated {
            user: User { id: 7, username: "zoe".to_string(), status: Status::Offline },
        }
    );
}

#[test]
fn decodes_presence_update() {
    let ev = decode_text_frame("{\"op\":\"PRESENCE_UPDATE\",\"user_id\":7,\"status\":\"OFFLINE\"}");
    assert_eq!(ev, InboundEvent::PresenceUpdated { user_id: 7, status: Status::Offline });
}

#[test]
fn unknown_op_is_other() {
    assert_eq!(decode_text_frame("{\"op\":\"PONG\"}"), InboundEvent::Other);
}

#[test]
fn malformed_text_is_other() {
    assert_eq!(decode_text_frame("not json at all"), InboundEvent::Other);
    assert_eq!(decode_text_frame("[1,2,3]"), InboundEvent::Other);
    assert_eq!(decode_text_frame("{\"heartbeat_interval\":1}"), InboundEvent::Other);
}

#[test]
fn missing_or_mistyped_field_is_other() {
    assert_eq!(decode_text_frame("{\"op\":\"HELLO\"}"), InboundEvent::Other);
    assert_eq!(
        decode_text_frame("{\"op\":\"HELLO\",\"heartbeat_interval\":\"soon\"}"),
        InboundEvent::Other
    );
    // a fractional interval carries nothing the protocol reads
    assert_eq!(
        decode_text_frame("{\"op\":\"HELLO\",\"heartbeat_interval\":1.5}"),
        InboundEvent::Other
    );
    assert_eq!(
        decode_text_frame("{\"op\":\"PRESENCE_UPDATE\",\"user_id\":7,\"status\":\"AWAY\"}"),
        InboundEvent::Other
    );
}

#[test]
fn encodes_authenticate() {
    let text = encode_text_frame(&OutboundEvent::Authenticate { token: "tok".to_string() });
    let v: serde_json::Value = serde_json::from_str(&text).unwrap();
    assert_eq!(v.get("op").unwrap().as_str().unwrap(), "AUTHENTICATE");
    assert_eq!(v.get("token").unwrap().as_str().unwrap(), "tok");
}

#[test]
fn encodes_ping() {
    let text = encode_text_frame(&OutboundEvent::Ping);
    let v: serde_json::Value = serde_json::from_str(&text).unwrap();
    assert_eq!(v.get("op").unwrap().as_str().unwrap(), "PING");
    assert_eq!(v.as_object().unwrap().len(), 1);
}

#[test]
fn authenticate_token_round_trips_through_escaping() {
    let token = "we\"ird\\tok\nen";
    let text = encode_text_frame(&OutboundEvent::Authenticate { token: token.to_string() });
    let v: serde_json::Value = serde_json::from_str(&text).unwrap();
    assert_eq!(v.get("token").unwrap().as_str().unwrap(), token);
}

#[test]
fn a_malformed_user_in_the_online_list_discards_the_frame() {
    let text = "{\"op\":\"AUTHENTICATED\",\
        \"user\":{\"id\":1,\"username\":\"kayla\",\"status\":\"ONLINE\"},\
        \"users\":[{\"id\":2,\"status\":\"IDLE\"}]}";
    assert_eq!(decode_text_frame(text), InboundEvent::Other);
}

#[test]
fn a_user_update_missing_a_field_is_other() {
    assert_eq!(
        decode_text_frame("{\"op\":\"USER_UPDATE\",\"id\":7,\"status\":\"ONLINE\"}"),
        InboundEvent::Other
    );
}

#[test]
fn duplicate_wire_fields_collapse_to_the_last() {
    // the JSON parser collapses duplicate keys, keeping the later one, so
    // the codec sees a single field
    let ev = decode_text_frame("{\"op\":\"HELLO\",\"heartbeat_interval\":10,\"heartbeat_interval\":20}");
    assert_eq!(ev, InboundEvent::Hello { heartbeat_interval: 20 });
}
