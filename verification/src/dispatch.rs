//! Event dispatcher: consumes decoded inbound events after the handshake,
//! updates the shared state, and tells the caller which outside action — a
//! desktop notification, a user lookup, a reconnect — the event asks for.

use std::collections::HashMap;
use vstd::prelude::*;
use vstd::string::StringExecFns;

use crate::codec::InboundEvent;
use crate::highlight::{is_highlighted, lower_of};
use crate::models::{
    users_map_wf, AppContext, PilferMessage, Response, Status, StyleHint, User,
};
use crate::notices::{
    appended_notice, authenticated_notice, authenticated_text, lookup_failure_notice,
    lookup_failure_text, push_notice,
};
use crate::strutil::contains_seq;

verus! {

broadcast use vstd::std_specs::hash::group_hash_axioms;

/// The online-users map after upserting one user record: unchanged when the
/// record says `Offline` (no insertion occurs, even for an id already
/// present), otherwise the record is stored under its own id.
pub open spec fn upsert_user(m: Map<u64, User>, u: User) -> Map<u64, User> {
    if u.status.spec_is_offline() {
        m
    } else {
        m.insert(u.id, u)
    }
}

/// The map after upserting every user of `users` in order, so that a later
/// entry for the same id overwrites an earlier one.
pub open spec fn seed_users_seq(m: Map<u64, User>, users: Seq<User>) -> Map<u64, User>
    decreases users.len(),
{
    if users.len() == 0 {
        m
    } else {
        seed_users_seq(upsert_user(m, users[0]), users.drop_first())
    }
}

/// The map seeded by a successful handshake: the local user first, then
/// every reported online user.
pub open spec fn seed_users(m: Map<u64, User>, self_user: User, online: Seq<User>) -> Map<
    u64,
    User,
> {
    seed_users_seq(upsert_user(m, self_user), online)
}

/// The user stored by an in-place presence change: same record, new status.
pub open spec fn with_status(u: User, status: Status) -> User {
    User { id: u.id, username: u.username, status }
}

/// The styling of an incoming chat message: highlighted exactly when its
/// case-folded content contains the case-folded local name.
pub open spec fn message_style(content: Seq<char>, name: Seq<char>) -> StyleHint {
    if contains_seq(lower_of(content), lower_of(name)) {
        StyleHint::Highlight
    } else {
        StyleHint::Plain
    }
}

/// The summary line of the desktop notification for a chat message.
pub open spec fn notify_summary_text(author: Seq<char>) -> Seq<char> {
    "New Pilfer message from "@ + author
}

/// Everything of the context except the log and the users map; no event
/// touches these.
pub open spec fn same_settings(a: AppContext, b: AppContext) -> bool {
    &&& b.input == a.input
    &&& b.name == a.name
    &&& b.rest_url == a.rest_url
    &&& b.gateway_url == a.gateway_url
    &&& b.focused == a.focused
    &&& b.users_list_enabled == a.users_list_enabled
}

/// The outside action one dispatched event asks for.
#[derive(Clone, Debug, PartialEq)]
pub enum DispatchEffect {
    /// Nothing to do; keep receiving.
    Continue,
    /// Ask the notification sink to create or update the desktop
    /// notification with this summary and body.
    Notify { summary: String, body: String },
    /// Fetch the user record for `user_id`, then hand the outcome to
    /// [`apply_user_lookup`] together with this status.
    LookupUser { user_id: u64, status: Status },
    /// The connection attempt ended; reconnect, growing the backoff exactly
    /// when a reason was supplied.
    Terminated { reason: Option<String> },
}

/// Upserting an offline record inserts nothing: the map is unchanged, so an
/// update to an already-absent offline user is a no-op.
pub proof fn lemma_offline_upsert_is_noop(m: Map<u64, User>, u: User)
    requires
        u.status.spec_is_offline(),
    ensures
        upsert_user(m, u) == m,
{
}

/// Law: upserting a user with `Offline` status never results in that id
/// being present in the online-users map, for any id not already present
/// from an earlier online record.
pub proof fn lemma_offline_upsert_never_adds(m: Map<u64, User>, u: User)
    requires
        u.status.spec_is_offline(),
        !m.contains_key(u.id),
    ensures
        !upsert_user(m, u).contains_key(u.id),
{
}

/// Law: a presence update to `Offline` removes the id from the map even if
/// it is absent — the removal is then a no-op, not an error.
pub proof fn lemma_offline_presence_removes(m: Map<u64, User>, user_id: u64)
    ensures
        !m.remove(user_id).contains_key(user_id),
        !m.contains_key(user_id) ==> m.remove(user_id) == m,
{
    if !m.contains_key(user_id) {
        assert(m.remove(user_id) =~= m);
    }
}

/// Upserting preserves the map invariant.
pub proof fn lemma_upsert_wf(m: Map<u64, User>, u: User)
    requires
        users_map_wf(m),
    ensures
        users_map_wf(upsert_user(m, u)),
{
}

/// Seeding preserves the map invariant.
pub proof fn lemma_seed_seq_wf(m: Map<u64, User>, users: Seq<User>)
    requires
        users_map_wf(m),
    ensures
        users_map_wf(seed_users_seq(m, users)),
    decreases users.len(),
{
    if users.len() > 0 {
        lemma_upsert_wf(m, users[0]);
        lemma_seed_seq_wf(upsert_user(m, users[0]), users.drop_first());
    }
}

/// Stores one user record unless it says `Offline`.
pub fn upsert_online_user(users: &mut HashMap<u64, User>, user: User)
    ensures
        final(users)@ == upsert_user(old(users)@, user),
{
    if !user.status.is_offline() {
        let id = user.id;
        users.insert(id, user);
    }
}

/// Seeds the online-users map from a successful handshake: the local user
/// plus every reported online user, later entries overwriting earlier ones.
pub fn seed_online_users(users: &mut HashMap<u64, User>, self_user: User, online: Vec<User>)
    ensures
        final(users)@ == seed_users(old(users)@, self_user, online@),
{
    upsert_online_user(users, self_user);
    let mut rest = online;
    while rest.len() > 0
        invariant
            seed_users(old(users)@, self_user, online@) == seed_users_seq(users@, rest@),
        decreases rest@.len(),
    {
        let ghost rest0 = rest@;
        let u = rest.remove(0);
        proof {
            assert(rest@ =~= rest0.drop_first());
        }
        upsert_online_user(users, u);
    }
}

/// Dispatches one decoded inbound event against the shared state, returning
/// the outside action it asks for. The online-users map invariant is
/// preserved by every event.
pub fn handle_event(app: &mut AppContext, ev: InboundEvent) -> (eff: DispatchEffect)
    ensures
        same_settings(*old(app), *final(app)),
        old(app).users_wf() ==> final(app).users_wf(),
        match ev {
            InboundEvent::MessageCreated { message } => {
                &&& final(app).users == old(app).users
                &&& final(app).messages@ == old(app).messages@.push(
                    (
                        PilferMessage::Eludris(message),
                        message_style(message.content@, old(app).name@),
                    ),
                )
                &&& if old(app).focused {
                    eff == DispatchEffect::Continue
                } else {
                    eff matches DispatchEffect::Notify { summary, body } && summary@
                        == notify_summary_text(message.author@) && body@ == message.content@
                }
            },
            InboundEvent::Authenticated { self_user, online_users } => {
                &&& final(app).users@ == seed_users(old(app).users@, self_user, online_users@)
                &&& appended_notice(
                    old(app).messages@,
                    final(app).messages@,
                    authenticated_text(),
                    StyleHint::Info,
                )
                &&& eff == DispatchEffect::Continue
            },
            InboundEvent::UserUpdated { user } => {
                &&& final(app).users@ == upsert_user(old(app).users@, user)
                &&& final(app).messages == old(app).messages
                &&& eff == DispatchEffect::Continue
            },
            InboundEvent::PresenceUpdated { user_id, status } => {
                &&& final(app).messages == old(app).messages
                &&& if status.spec_is_offline() {
                    &&& final(app).users@ == old(app).users@.remove(user_id)
                    &&& eff == DispatchEffect::Continue
                } else if old(app).users@.contains_key(user_id) {
                    &&& final(app).users@ == old(app).users@.insert(
                        user_id,
                        with_status(old(app).users@[user_id], status),
                    )
                    &&& eff == DispatchEffect::Continue
                } else {
                    &&& final(app).users@ == old(app).users@
                    &&& eff == (DispatchEffect::LookupUser { user_id, status })
                }
            },
            InboundEvent::Close { reason } => {
                &&& *final(app) == *old(app)
                &&& eff == (DispatchEffect::Terminated { reason })
            },
            _ => {
                &&& *final(app) == *old(app)
                &&& eff == DispatchEffect::Continue
            },
        },
{
    match ev {
        InboundEvent::MessageCreated { message } => {
            let highlighted = is_highlighted(message.content.as_str(), app.name.as_str());
            let style = if highlighted {
                StyleHint::Highlight
            } else {
                StyleHint::Plain
            };
            let eff = if !app.focused {
                let mut summary = String::from_str("New Pilfer message from ");
                summary.append(message.author.as_str());
                DispatchEffect::Notify { summary, body: message.content.clone() }
            } else {
                DispatchEffect::Continue
            };
            app.messages.push((PilferMessage::Eludris(message), style));
            eff
        },
        InboundEvent::Authenticated { self_user, online_users } => {
            let content = authenticated_notice();
            push_notice(app, content, StyleHint::Info);
            proof {
                assert(app.messages@.subrange(0, old(app).messages@.len() as int)
                    =~= old(app).messages@);
            }
            seed_online_users(&mut app.users, self_user, online_users);
            proof {
                if old(app).users_wf() {
                    lemma_upsert_wf(old(app).users@, self_user);
                    lemma_seed_seq_wf(upsert_user(old(app).users@, self_user), online_users@);
                }
            }
            DispatchEffect::Continue
        },
        InboundEvent::UserUpdated { user } => {
            upsert_online_user(&mut app.users, user);
            proof {
                if old(app).users_wf() {
                    lemma_upsert_wf(old(app).users@, user);
                }
            }
            DispatchEffect::Continue
        },
        InboundEvent::PresenceUpdated { user_id, status } => {
            if status.is_offline() {
                app.users.remove(&user_id);
                DispatchEffect::Continue
            } else {
                match app.users.remove(&user_id) {
                    Some(existing) => {
                        let updated = User {
                            id: existing.id,
                            username: existing.username,
                            status,
                        };
                        app.users.insert(user_id, updated);
                        proof {
                            assert(app.users@ =~= old(app).users@.insert(
                                user_id,
                                with_status(old(app).users@[user_id], status),
                            ));
                        }
                        DispatchEffect::Continue
                    },
                    None => {
                        proof {
                            assert(app.users@ =~= old(app).users@);
                        }
                        DispatchEffect::LookupUser { user_id, status }
                    },
                }
            }
        },
        InboundEvent::Close { reason } => DispatchEffect::Terminated { reason },
        _ => DispatchEffect::Continue,
    }
}

/// Applies the outcome of the user lookup requested by a presence update
/// for an unknown id: a fetched record is stored with the new status; a
/// lookup failure is reported as a system notice naming the id and the
/// error, and the event is dropped without retry.
pub fn apply_user_lookup(
    app: &mut AppContext,
    user_id: u64,
    status: Status,
    resp: Response<User>,
)
    requires
        !status.spec_is_offline(),
    ensures
        same_settings(*old(app), *final(app)),
        old(app).users_wf() ==> final(app).users_wf(),
        match resp {
            Response::Success(user) => {
                &&& final(app).users@ == old(app).users@.insert(user.id, with_status(user, status))
                &&& final(app).messages == old(app).messages
            },
            Response::Error(err) => {
                &&& final(app).users == old(app).users
                &&& appended_notice(
                    old(app).messages@,
                    final(app).messages@,
                    lookup_failure_text(user_id as nat, err@),
                    StyleHint::Error,
                )
            },
        },
{
    match resp {
        Response::Success(user) => {
            let stored = User { id: user.id, username: user.username, status };
            let key = stored.id;
            app.users.insert(key, stored);
        },
        Response::Error(err) => {
            let content = lookup_failure_notice(user_id, err.as_str());
            push_notice(app, content, StyleHint::Error);
            proof {
                assert(app.messages@.subrange(0, old(app).messages@.len() as int)
                    =~= old(app).messages@);
            }
        },
    }
}

} // verus!
