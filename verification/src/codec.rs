//! Protocol codec: typed inbound and outbound gateway events, and the rules
//! that tie each of them to a JSON frame.
//!
//! Decoding is total: a frame whose shape is not recognized — wrong tag,
//! missing field, wrong field type — yields [`InboundEvent::Other`], which the
//! rest of the client ignores, preserving forward compatibility with future
//! server operations.

use vstd::prelude::*;

use crate::json::{field_lookup, lookup_field, num_field, obj_fields, str_field, JsonValue};
use crate::models::{Message, Status, User};
use crate::strutil::str_eq;

verus! {

/// A typed event received from the gateway. Exactly one variant is active
/// per received frame.
#[derive(Clone, Debug, PartialEq)]
pub enum InboundEvent {
    /// First frame of a connection; carries the heartbeat cadence in
    /// milliseconds.
    Hello { heartbeat_interval: u64 },
    /// The server defers the handshake; wait this many milliseconds.
    RateLimit { wait_ms: u64 },
    /// The handshake succeeded: the local user plus everyone online now.
    Authenticated { self_user: User, online_users: Vec<User> },
    /// A chat message was posted.
    MessageCreated { message: Message },
    /// A user's record changed.
    UserUpdated { user: User },
    /// A user's presence changed.
    PresenceUpdated { user_id: u64, status: Status },
    /// The transport was closed, with an optional human-readable reason.
    Close { reason: Option<String> },
    /// Anything unrecognized or malformed; ignored.
    Other,
}

/// A frame the client sends to the gateway.
#[derive(Clone, Debug, PartialEq)]
pub enum OutboundEvent {
    /// Presents the session token right after `Hello`.
    Authenticate { token: String },
    /// Periodic keep-alive.
    Ping,
}

/// The presence named by a JSON status value, if it is one of the four
/// presence strings.
pub open spec fn status_of_json(v: JsonValue) -> Option<Status> {
    match v {
        JsonValue::Str(s) => if s@ == "ONLINE"@ {
            Some(Status::Online)
        } else if s@ == "IDLE"@ {
            Some(Status::Idle)
        } else if s@ == "BUSY"@ {
            Some(Status::Busy)
        } else if s@ == "OFFLINE"@ {
            Some(Status::Offline)
        } else {
            None
        },
        _ => None,
    }
}

/// The user described by a JSON object with `id`, `username` and `status`
/// fields, if they are all present and well-typed.
pub open spec fn user_of_json(v: JsonValue) -> Option<User> {
    match obj_fields(v) {
        Some(fields) => {
            let status = match field_lookup(fields, "status"@) {
                Some(sv) => status_of_json(sv),
                None => None,
            };
            match (num_field(fields, "id"@), str_field(fields, "username"@), status) {
                (Some(id), Some(username), Some(st)) => Some(
                    User { id, username, status: st },
                ),
                _ => None,
            }
        },
        None => None,
    }
}

/// The users described by the elements of a JSON array from position `i`
/// on; `None` as soon as one element is malformed.
pub open spec fn users_of_json_from(elems: Seq<JsonValue>, i: int) -> Option<Seq<User>>
    decreases elems.len() - i,
{
    if i < 0 || i >= elems.len() {
        Some(Seq::empty())
    } else {
        match (user_of_json(elems[i]), users_of_json_from(elems, i + 1)) {
            (Some(u), Some(rest)) => Some(seq![u] + rest),
            _ => None,
        }
    }
}

/// The users described by the elements of a JSON array.
pub open spec fn users_of_json(elems: Seq<JsonValue>) -> Option<Seq<User>> {
    users_of_json_from(elems, 0)
}

/// The local user of an `AUTHENTICATED` frame.
pub open spec fn auth_self_user(fields: Seq<(String, JsonValue)>) -> Option<User> {
    match field_lookup(fields, "user"@) {
        Some(uv) => user_of_json(uv),
        None => None,
    }
}

/// The online-users list of an `AUTHENTICATED` frame.
pub open spec fn auth_online_users(fields: Seq<(String, JsonValue)>) -> Option<Seq<User>> {
    match field_lookup(fields, "users"@) {
        Some(JsonValue::Arr(elems)) => users_of_json(elems@),
        _ => None,
    }
}

/// The status of a `PRESENCE_UPDATE` frame.
pub open spec fn presence_status(fields: Seq<(String, JsonValue)>) -> Option<Status> {
    match field_lookup(fields, "status"@) {
        Some(sv) => status_of_json(sv),
        None => None,
    }
}

/// What it means to decode the JSON document `v` into the event `r`: every
/// well-formed frame maps to its variant, everything else to `Other`. A
/// transport close is not a JSON frame, so no document decodes to `Close`.
pub open spec fn decode_ok(v: JsonValue, r: InboundEvent) -> bool {
    match obj_fields(v) {
        None => r is Other,
        Some(fields) => match str_field(fields, "op"@) {
            None => r is Other,
            Some(op) => if op@ == "HELLO"@ {
                match num_field(fields, "heartbeat_interval"@) {
                    Some(hb) => r == (InboundEvent::Hello { heartbeat_interval: hb }),
                    None => r is Other,
                }
            } else if op@ == "RATE_LIMIT"@ {
                match num_field(fields, "wait"@) {
                    Some(w) => r == (InboundEvent::RateLimit { wait_ms: w }),
                    None => r is Other,
                }
            } else if op@ == "AUTHENTICATED"@ {
                match (auth_self_user(fields), auth_online_users(fields)) {
                    (Some(u), Some(us)) => r matches InboundEvent::Authenticated {
                        self_user,
                        online_users,
                    } && self_user == u && online_users@ == us,
                    _ => r is Other,
                }
            } else if op@ == "MESSAGE_CREATE"@ {
                match (str_field(fields, "author"@), str_field(fields, "content"@)) {
                    (Some(a), Some(c)) => r == (InboundEvent::MessageCreated {
                        message: Message { author: a, content: c },
                    }),
                    _ => r is Other,
                }
            } else if op@ == "USER_UPDATE"@ {
                match user_of_json(v) {
                    Some(u) => r == (InboundEvent::UserUpdated { user: u }),
                    None => r is Other,
                }
            } else if op@ == "PRESENCE_UPDATE"@ {
                match (num_field(fields, "user_id"@), presence_status(fields)) {
                    (Some(id), Some(st)) => r == (InboundEvent::PresenceUpdated {
                        user_id: id,
                        status: st,
                    }),
                    _ => r is Other,
                }
            } else {
                r is Other
            },
        },
    }
}

/// Decodes a JSON status value.
pub fn decode_status(v: &JsonValue) -> (r: Option<Status>)
    ensures
        r == status_of_json(*v),
{
    match v {
        JsonValue::Str(s) => {
            if str_eq(s.as_str(), "ONLINE") {
                Some(Status::Online)
            } else if str_eq(s.as_str(), "IDLE") {
                Some(Status::Idle)
            } else if str_eq(s.as_str(), "BUSY") {
                Some(Status::Busy)
            } else if str_eq(s.as_str(), "OFFLINE") {
                Some(Status::Offline)
            } else {
                None
            }
        },
        _ => None,
    }
}

/// Decodes a JSON user object.
pub fn decode_user(v: &JsonValue) -> (r: Option<User>)
    ensures
        r == user_of_json(*v),
{
    let fields = match v {
        JsonValue::Obj(fields) => fields,
        _ => {
            return None;
        },
    };
    let id: u64 = match lookup_field(fields, "id") {
        Some(JsonValue::Num(n)) => *n,
        _ => {
            return None;
        },
    };
    let username: String = match lookup_field(fields, "username") {
        Some(JsonValue::Str(s)) => s.clone(),
        _ => {
            return None;
        },
    };
    let status: Status = match lookup_field(fields, "status") {
        Some(sv) => match decode_status(sv) {
            Some(st) => st,
            None => {
                return None;
            },
        },
        None => {
            return None;
        },
    };
    Some(User { id, username, status })
}

/// If the elements from position `j` on do not all describe users, neither
/// do the elements from any earlier position.
proof fn lemma_users_from_none(elems: Seq<JsonValue>, k: int, j: int)
    requires
        0 <= k <= j,
        users_of_json_from(elems, j) is None,
    ensures
        users_of_json_from(elems, k) is None,
    decreases j - k,
{
    if k < j {
        lemma_users_from_none(elems, k + 1, j);
    }
}

/// Decodes every element of a JSON array as a user.
pub fn decode_users(elems: &Vec<JsonValue>) -> (r: Option<Vec<User>>)
    ensures
        match r {
            Some(us) => users_of_json(elems@) == Some(us@),
            None => users_of_json(elems@) is None,
        },
{
    let mut acc: Vec<User> = Vec::new();
    let mut i: usize = elems.len();
    proof {
        assert(acc@ =~= Seq::<User>::empty());
    }
    while i > 0
        invariant
            i <= elems@.len(),
            users_of_json_from(elems@, i as int) == Some(acc@),
        decreases i,
    {
        i -= 1;
        match decode_user(&elems[i]) {
            Some(u) => {
                let ghost prev = acc@;
                acc.insert(0, u);
                proof {
                    assert(acc@ =~= seq![u] + prev);
                }
            },
            None => {
                proof {
                    lemma_users_from_none(elems@, 0, i as int);
                }
                return None;
            },
        }
    }
    Some(acc)
}

/// Decodes one JSON document as an inbound event.
pub fn decode_frame(v: &JsonValue) -> (r: InboundEvent)
    ensures
        decode_ok(*v, r),
{
    let fields = match v {
        JsonValue::Obj(fields) => fields,
        _ => {
            return InboundEvent::Other;
        },
    };
    let op: &String = match lookup_field(fields, "op") {
        Some(JsonValue::Str(s)) => s,
        _ => {
            return InboundEvent::Other;
        },
    };
    if str_eq(op.as_str(), "HELLO") {
        match lookup_field(fields, "heartbeat_interval") {
            Some(JsonValue::Num(n)) => InboundEvent::Hello { heartbeat_interval: *n },
            _ => InboundEvent::Other,
        }
    } else if str_eq(op.as_str(), "RATE_LIMIT") {
        match lookup_field(fields, "wait") {
            Some(JsonValue::Num(n)) => InboundEvent::RateLimit { wait_ms: *n },
            _ => InboundEvent::Other,
        }
    } else if str_eq(op.as_str(), "AUTHENTICATED") {
        let self_user: User = match lookup_field(fields, "user") {
            Some(uv) => match decode_user(uv) {
                Some(u) => u,
                None => {
                    return InboundEvent::Other;
                },
            },
            None => {
                return InboundEvent::Other;
            },
        };
        let online_users: Vec<User> = match lookup_field(fields, "users") {
            Some(JsonValue::Arr(elems)) => match decode_users(elems) {
                Some(us) => us,
                None => {
                    return InboundEvent::Other;
                },
            },
            _ => {
                return InboundEvent::Other;
            },
        };
        InboundEvent::Authenticated { self_user, online_users }
    } else if str_eq(op.as_str(), "MESSAGE_CREATE") {
        let author: String = match lookup_field(fields, "author") {
            Some(JsonValue::Str(s)) => s.clone(),
            _ => {
                return InboundEvent::Other;
            },
        };
        let content: String = match lookup_field(fields, "content") {
            Some(JsonValue::Str(s)) => s.clone(),
            _ => {
                return InboundEvent::Other;
            },
        };
        InboundEvent::MessageCreated { message: Message { author, content } }
    } else if str_eq(op.as_str(), "USER_UPDATE") {
        match decode_user(v) {
            Some(user) => InboundEvent::UserUpdated { user },
            None => InboundEvent::Other,
        }
    } else if str_eq(op.as_str(), "PRESENCE_UPDATE") {
        let user_id: u64 = match lookup_field(fields, "user_id") {
            Some(JsonValue::Num(n)) => *n,
            _ => {
                return InboundEvent::Other;
            },
        };
        match lookup_field(fields, "status") {
            Some(sv) => match decode_status(sv) {
                Some(status) => InboundEvent::PresenceUpdated { user_id, status },
                None => InboundEvent::Other,
            },
            None => InboundEvent::Other,
        }
    } else {
        InboundEvent::Other
    }
}

/// Declares serde_json's document type, so that the parsing wrapper can
/// hand its conversion half a parsed tree; the type stays opaque here.
#[verifier::external_type_specification]
#[verifier::external_body]
pub struct ExSerdeValue(serde_json::Value);

/// What parsing JSON text yields as the library's document model: the name
/// of the result of [`parse_to_doc`], a function of the text alone.
pub uninterp spec fn parsed_doc(s: Seq<char>) -> Option<JsonValue>;

/// What rendering a document as text yields: the name of the result of
/// [`render_doc`], a function of the document alone.
pub uninterp spec fn rendered(v: JsonValue) -> Seq<char>;

/// Conversion half of [`parse_to_doc`]: rebuilds a serde_json tree as the
/// library's own JSON model, one variant for one variant. A number that is
/// not an unsigned integer carries nothing the protocol reads, so it is
/// mapped to `Null` (and the frame holding it is then treated as malformed).
#[verifier::external_body]
fn json_of_value(v: serde_json::Value) -> (r: JsonValue) {
    match v {
        serde_json::Value::Null => JsonValue::Null,
        serde_json::Value::Bool(b) => JsonValue::Bool(b),
        serde_json::Value::Number(n) => match n.as_u64() {
            Some(u) => JsonValue::Num(u),
            None => JsonValue::Null,
        },
        serde_json::Value::String(s) => JsonValue::Str(s),
        serde_json::Value::Array(a) => JsonValue::Arr(a.into_iter().map(json_of_value).collect()),
        serde_json::Value::Object(m) => JsonValue::Obj(
            m.into_iter().map(|(k, val)| (k, json_of_value(val))).collect(),
        ),
    }
}

/// Relies on serde_json::from_str::<serde_json::Value>: parses JSON text
/// into its document tree — `None` when the text is not valid JSON — and
/// rebuilds the tree as the library's model through [`json_of_value`].
/// Both steps depend on the text alone, so the result bears the name
/// [`parsed_doc`].
#[verifier::external_body]
fn parse_to_doc(s: &str) -> (r: Option<JsonValue>)
    ensures
        r == parsed_doc(s@),
{
    match serde_json::from_str::<serde_json::Value>(s) {
        Ok(v) => Some(json_of_value(v)),
        Err(_) => None,
    }
}

/// Conversion half of [`render_doc`]: rebuilds the library's JSON model as
/// a serde_json document, one variant for one variant.
#[verifier::external_body]
fn value_of_json(v: &JsonValue) -> (r: serde_json::Value) {
    match v {
        JsonValue::Null => serde_json::Value::Null,
        JsonValue::Bool(b) => serde_json::Value::Bool(*b),
        JsonValue::Num(n) => serde_json::Value::Number(serde_json::Number::from(*n)),
        JsonValue::Str(s) => serde_json::Value::String(s.clone()),
        JsonValue::Arr(a) => serde_json::Value::Array(a.iter().map(value_of_json).collect()),
        JsonValue::Obj(fields) => serde_json::Value::Object(
            fields.iter().map(|(k, val)| (k.clone(), value_of_json(val))).collect(),
        ),
    }
}

/// Relies on serde_json::to_string, after rebuilding the document as a
/// serde_json value through [`value_of_json`]. Rendering a
/// serde_json::Value cannot fail — its object keys are strings — but any
/// error is still mapped to an empty string rather than a panic. Both steps
/// depend on the document alone, so the result bears the name [`rendered`].
#[verifier::external_body]
fn render_doc(v: &JsonValue) -> (r: String)
    ensures
        r@ == rendered(*v),
{
    serde_json::to_string(&value_of_json(v)).unwrap_or_default()
}

/// A decoded frame is never `Close`: that variant only stands for a
/// transport-level close, which reaches the dispatcher without a JSON body.
pub proof fn lemma_decode_never_close(v: JsonValue, r: InboundEvent)
    requires
        decode_ok(v, r),
    ensures
        !(r is Close),
{
}

/// Decodes one inbound text frame: exactly the decode of the parsed
/// document — [`decode_frame`]'s law lifted to the text level — and
/// `Other` for text that is not valid JSON.
pub fn decode_text_frame(s: &str) -> (r: InboundEvent)
    ensures
        match parsed_doc(s@) {
            Some(v) => decode_ok(v, r),
            None => r is Other,
        },
        !(r is Close),
{
    match parse_to_doc(s) {
        Some(v) => {
            let r = decode_frame(&v);
            proof {
                lemma_decode_never_close(v, r);
            }
            r
        },
        None => InboundEvent::Other,
    }
}

/// Decodes the payload of a user-lookup response: exactly the user record
/// the parsed document describes, per [`user_of_json`]; `None` for any
/// other payload.
pub fn decode_user_payload(s: &str) -> (r: Option<User>)
    ensures
        match parsed_doc(s@) {
            Some(v) => r == user_of_json(v),
            None => r is None,
        },
{
    match parse_to_doc(s) {
        Some(v) => decode_user(&v),
        None => None,
    }
}

/// Renders one outbound event as the text frame sent on the wire: the
/// rendering of a document that encodes the event per [`encodes_outbound`].
pub fn encode_text_frame(e: &OutboundEvent) -> (r: String)
    ensures
        exists|v: JsonValue| encodes_outbound(*e, v) && r@ == #[trigger] rendered(v),
{
    let v = encode_outbound(e);
    let r = render_doc(&v);
    proof {
        assert(encodes_outbound(*e, v) && r@ == rendered(v));
    }
    r
}

/// What it means to encode the outbound event `e` as the JSON document `v`.
pub open spec fn encodes_outbound(e: OutboundEvent, v: JsonValue) -> bool {
    match e {
        OutboundEvent::Authenticate { token } => match v {
            JsonValue::Obj(fields) => {
                &&& fields@.len() == 2
                &&& fields@[0].0@ == "op"@
                &&& match fields@[0].1 {
                    JsonValue::Str(s) => s@ == "AUTHENTICATE"@,
                    _ => false,
                }
                &&& fields@[1].0@ == "token"@
                &&& match fields@[1].1 {
                    JsonValue::Str(t) => t@ == token@,
                    _ => false,
                }
            },
            _ => false,
        },
        OutboundEvent::Ping => match v {
            JsonValue::Obj(fields) => {
                &&& fields@.len() == 1
                &&& fields@[0].0@ == "op"@
                &&& match fields@[0].1 {
                    JsonValue::Str(s) => s@ == "PING"@,
                    _ => false,
                }
            },
            _ => false,
        },
    }
}

/// Encodes one outbound event as a JSON document.
pub fn encode_outbound(e: &OutboundEvent) -> (v: JsonValue)
    ensures
        encodes_outbound(*e, v),
{
    match e {
        OutboundEvent::Authenticate { token } => {
            let mut fields: Vec<(String, JsonValue)> = Vec::new();
            fields.push(
                (String::from_str("op"), JsonValue::Str(String::from_str("AUTHENTICATE"))),
            );
            fields.push((String::from_str("token"), JsonValue::Str(token.clone())));
            JsonValue::Obj(fields)
        },
        OutboundEvent::Ping => {
            let mut fields: Vec<(String, JsonValue)> = Vec::new();
            fields.push((String::from_str("op"), JsonValue::Str(String::from_str("PING"))));
            JsonValue::Obj(fields)
        },
    }
}

} // verus!
