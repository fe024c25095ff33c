//! Data model shared by the gateway components: users and their presence,
//! chat messages, the entries of the displayed log, and the client context
//! that outlives any single connection attempt.

use std::collections::HashMap;
use vstd::prelude::*;
use vstd::string::StringExecFns;

verus! {

/// A user's presence as broadcast by the server. Every variant but
/// `Offline` counts as being online.
#[derive(Clone, Copy, Debug, PartialEq, Eq)]
pub enum Status {
    Online,
    Idle,
    Busy,
    Offline,
}

impl Status {
    /// Whether this status means the user has left the online set.
    pub open spec fn spec_is_offline(&self) -> bool {
        matches!(*self, Status::Offline)
    }

    #[verifier::when_used_as_spec(spec_is_offline)]
    pub fn is_offline(&self) -> (r: bool)
        ensures
            r == self.spec_is_offline(),
    {
        matches!(*self, Status::Offline)
    }
}

/// A chat participant: numeric id (the unique key of the online-users map),
/// display name, and current presence.
#[derive(Clone, Debug, PartialEq, Eq)]
pub struct User {
    pub id: u64,
    pub username: String,
    pub status: Status,
}

/// A chat message: who wrote it and what it says. Arrival order is kept by
/// the log it is appended to.
#[derive(Clone, Debug, PartialEq, Eq)]
pub struct Message {
    pub author: String,
    pub content: String,
}

/// A locally generated, non-chat log entry describing connection or error
/// state.
#[derive(Clone, Debug, PartialEq, Eq)]
pub struct SystemMessage {
    pub content: String,
}

/// One entry of the displayed log: either a chat message received from the
/// gateway or a system notice produced by the client itself.
#[derive(Clone, Debug, PartialEq, Eq)]
pub enum PilferMessage {
    Eludris(Message),
    System(SystemMessage),
}

impl PilferMessage {
    /// The log line of this entry: `[author]: content` for a chat message,
    /// the bare content for a system notice.
    pub open spec fn spec_display_line(&self) -> Seq<char> {
        match *self {
            PilferMessage::Eludris(m) => "["@ + m.author@ + "]: "@ + m.content@,
            PilferMessage::System(sm) => sm.content@,
        }
    }

    /// Renders this entry as its log line.
    pub fn display_line(&self) -> (r: String)
        ensures
            r@ == self.spec_display_line(),
    {
        match self {
            PilferMessage::Eludris(m) => {
                let mut s = String::from_str("[");
                s.append(m.author.as_str());
                s.append("]: ");
                s.append(m.content.as_str());
                s
            },
            PilferMessage::System(sm) => sm.content.clone(),
        }
    }
}

/// Display-styling hint attached to each log entry, so that failures and
/// mentions are visible in-band.
#[derive(Clone, Copy, Debug, PartialEq, Eq)]
pub enum StyleHint {
    /// An ordinary chat message.
    Plain,
    /// A chat message whose content mentions the local user's name.
    Highlight,
    /// An informational system notice.
    Info,
    /// An error-colored system notice.
    Error,
}

/// Outcome of a request/response call against the companion HTTP API:
/// either the expected payload or a human-readable error description.
#[derive(Clone, Debug, PartialEq, Eq)]
pub enum Response<T> {
    Success(T),
    Error(String),
}

/// Client state shared between the gateway client and its presentation
/// collaborator. It is created once at process start and outlives every
/// connection attempt.
pub struct AppContext {
    /// Current input line being edited.
    pub input: String,
    /// The local user's display name.
    pub name: String,
    /// Append-only ordered log of chat messages and system notices.
    pub messages: Vec<(PilferMessage, StyleHint)>,
    /// Online users, keyed by user id; membership means "currently online".
    pub users: HashMap<u64, User>,
    /// Base address of the companion HTTP API.
    pub rest_url: String,
    /// Address of the gateway.
    pub gateway_url: String,
    /// Whether the user is currently focused on the client.
    pub focused: bool,
    /// Whether the online-users list is shown.
    pub users_list_enabled: bool,
}

/// The invariant of the online-users map: it never holds an offline user,
/// and each user is keyed by its own id.
pub open spec fn users_map_wf(m: Map<u64, User>) -> bool {
    forall|id: u64| m.contains_key(id) ==> {
        &&& (#[trigger] m[id]).id == id
        &&& !m[id].status.spec_is_offline()
    }
}

impl AppContext {
    /// The online-users map invariant, on this context's map.
    pub open spec fn users_wf(&self) -> bool {
        users_map_wf(self.users@)
    }
}

} // verus!
