//! System notices: the exact text of every locally generated log entry, and
//! the functions that append them to the shared log.
//!
//! All notices land in the same log as chat messages, with a styling hint
//! that tells informational entries from error-colored ones, so failures are
//! visible in-band.

use vstd::prelude::*;
use vstd::string::StringExecFns;

use crate::models::{AppContext, PilferMessage, StyleHint, SystemMessage};
use crate::strutil::{spec_decimal, u64_to_string};

verus! {

/// Notice text for a failed transport open: names the error and the wait,
/// in seconds, before the next attempt.
pub open spec fn connect_failure_text(err: Seq<char>, wait_secs: nat) -> Seq<char> {
    "Could not connect: "@ + err + ", reconnecting in "@ + spec_decimal(wait_secs)
        + "s (press Ctrl+C to exit)"@
}

/// Notice text for a send failure during authentication; this one is fatal.
pub open spec fn auth_failure_text(err: Seq<char>) -> Seq<char> {
    "Could not authenticate: "@ + err
}

/// Notice text for a handshake deferred by rate limiting; the wait is
/// displayed in whole seconds.
pub open spec fn rate_limit_text(wait_ms: nat) -> Seq<char> {
    "Rate limited, waiting "@ + spec_decimal(wait_ms / 1000) + "s"@
}

/// Notice text for a connection attempt that ended with a server-supplied
/// reason: names the reason and the wait before reconnecting.
pub open spec fn session_end_text(reason: Seq<char>, wait_secs: nat) -> Seq<char> {
    reason + ", retrying in "@ + spec_decimal(wait_secs) + "s"@
}

/// Notice text for a failed user lookup: names the user id and the error.
pub open spec fn lookup_failure_text(user_id: nat, err: Seq<char>) -> Seq<char> {
    "Could not get user "@ + spec_decimal(user_id) + ": "@ + err
}

/// Notice text for a rejected message post due to rate limiting.
pub open spec fn post_rate_limited_text(retry_after_ms: nat) -> Seq<char> {
    "System: You've been ratelimited, retry in "@ + spec_decimal(retry_after_ms / 1000) + "s"@
}

/// Notice text for a message post that failed for any other reason.
pub open spec fn post_failure_text(err: Seq<char>) -> Seq<char> {
    "System: Couldn't send message: "@ + err
}

/// The entry appended when the transport opens.
pub open spec fn connected_text() -> Seq<char> {
    "Connected to Pandemonium"@
}

/// The entry appended when the handshake completes.
pub open spec fn authenticated_text() -> Seq<char> {
    "Authenticated with Pandemonium!"@
}

/// `after` is `before` with one system notice of this text and styling
/// appended.
pub open spec fn appended_notice(
    before: Seq<(PilferMessage, StyleHint)>,
    after: Seq<(PilferMessage, StyleHint)>,
    text: Seq<char>,
    style: StyleHint,
) -> bool {
    &&& after.len() == before.len() + 1
    &&& after.subrange(0, before.len() as int) == before
    &&& match after.last().0 {
        PilferMessage::System(sm) => sm.content@ == text,
        _ => false,
    }
    &&& after.last().1 == style
}

/// Everything of the context but the log: unchanged by a notice.
pub open spec fn same_but_messages(a: AppContext, b: AppContext) -> bool {
    &&& b.input == a.input
    &&& b.name == a.name
    &&& b.users == a.users
    &&& b.rest_url == a.rest_url
    &&& b.gateway_url == a.gateway_url
    &&& b.focused == a.focused
    &&& b.users_list_enabled == a.users_list_enabled
}

/// Appends one system notice with the given styling hint.
pub fn push_notice(app: &mut AppContext, content: String, style: StyleHint)
    ensures
        same_but_messages(*old(app), *final(app)),
        final(app).messages@ == old(app).messages@.push(
            (PilferMessage::System(SystemMessage { content }), style),
        ),
{
    app.messages.push((PilferMessage::System(SystemMessage { content }), style));
}

/// Builds the connect-failure notice text.
pub fn connect_failure_notice(err: &str, wait_secs: u64) -> (r: String)
    ensures
        r@ == connect_failure_text(err@, wait_secs as nat),
{
    let mut s = String::from_str("Could not connect: ");
    s.append(err);
    s.append(", reconnecting in ");
    let d = u64_to_string(wait_secs);
    s.append(d.as_str());
    s.append("s (press Ctrl+C to exit)");
    s
}

/// Builds the fatal authentication-failure notice text.
pub fn auth_failure_notice(err: &str) -> (r: String)
    ensures
        r@ == auth_failure_text(err@),
{
    let mut s = String::from_str("Could not authenticate: ");
    s.append(err);
    s
}

/// Builds the rate-limit notice text.
pub fn rate_limit_notice(wait_ms: u64) -> (r: String)
    ensures
        r@ == rate_limit_text(wait_ms as nat),
{
    let mut s = String::from_str("Rate limited, waiting ");
    let d = u64_to_string(wait_ms / 1000);
    s.append(d.as_str());
    s.append("s");
    s
}

/// Builds the session-end notice text.
pub fn session_end_notice(reason: &str, wait_secs: u64) -> (r: String)
    ensures
        r@ == session_end_text(reason@, wait_secs as nat),
{
    let mut s = String::from_str("");
    s.append(reason);
    s.append(", retrying in ");
    let d = u64_to_string(wait_secs);
    s.append(d.as_str());
    s.append("s");
    proof {
        reveal_strlit("");
        assert(s@ =~= session_end_text(reason@, wait_secs as nat));
    }
    s
}

/// Builds the lookup-failure notice text.
pub fn lookup_failure_notice(user_id: u64, err: &str) -> (r: String)
    ensures
        r@ == lookup_failure_text(user_id as nat, err@),
{
    let mut s = String::from_str("Could not get user ");
    let d = u64_to_string(user_id);
    s.append(d.as_str());
    s.append(": ");
    s.append(err);
    s
}

/// Builds the post-rate-limited notice text.
pub fn post_rate_limited_notice(retry_after_ms: u64) -> (r: String)
    ensures
        r@ == post_rate_limited_text(retry_after_ms as nat),
{
    let mut s = String::from_str("System: You've been ratelimited, retry in ");
    let d = u64_to_string(retry_after_ms / 1000);
    s.append(d.as_str());
    s.append("s");
    s
}

/// Builds the post-failure notice text.
pub fn post_failure_notice(err: &str) -> (r: String)
    ensures
        r@ == post_failure_text(err@),
{
    let mut s = String::from_str("System: Couldn't send message: ");
    s.append(err);
    s
}

/// Outcome of posting one chat message through the HTTP API, as the caller
/// of the post reports it back.
#[derive(Clone, Debug, PartialEq)]
pub enum PostOutcome {
    /// The message was accepted; nothing to report.
    Sent,
    /// The post was rejected by rate limiting; retry after this many
    /// milliseconds.
    RateLimited { retry_after_ms: u64 },
    /// The post failed for any other reason, described here.
    Failed { desc: String },
}

/// Reports the outcome of a message post in the shared log: nothing on
/// success, an error-colored notice otherwise.
pub fn post_outcome_notice(app: &mut AppContext, outcome: PostOutcome)
    ensures
        same_but_messages(*old(app), *final(app)),
        match outcome {
            PostOutcome::Sent => final(app).messages == old(app).messages,
            PostOutcome::RateLimited { retry_after_ms } => appended_notice(
                old(app).messages@,
                final(app).messages@,
                post_rate_limited_text(retry_after_ms as nat),
                StyleHint::Error,
            ),
            PostOutcome::Failed { desc } => appended_notice(
                old(app).messages@,
                final(app).messages@,
                post_failure_text(desc@),
                StyleHint::Error,
            ),
        },
{
    match outcome {
        PostOutcome::Sent => {},
        PostOutcome::RateLimited { retry_after_ms } => {
            let content = post_rate_limited_notice(retry_after_ms);
            push_notice(app, content, StyleHint::Error);
            proof {
                assert(app.messages@.subrange(0, old(app).messages@.len() as int)
                    =~= old(app).messages@);
            }
        },
        PostOutcome::Failed { desc } => {
            let content = post_failure_notice(desc.as_str());
            push_notice(app, content, StyleHint::Error);
            proof {
                assert(app.messages@.subrange(0, old(app).messages@.len() as int)
                    =~= old(app).messages@);
            }
        },
    }
}

/// Builds the connected notice text.
pub fn connected_notice() -> (r: String)
    ensures
        r@ == connected_text(),
{
    String::from_str("Connected to Pandemonium")
}

/// Builds the authenticated notice text.
pub fn authenticated_notice() -> (r: String)
    ensures
        r@ == authenticated_text(),
{
    String::from_str("Authenticated with Pandemonium!")
}

} // verus!
