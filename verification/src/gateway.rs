//! Connection supervision, handshake negotiation and heartbeat scheduling.
//!
//! The supervisor owns the reconnect backoff: it starts at zero, grows on
//! every failure — to two seconds from a standing start, doubling from
//! there, capped at 64 seconds — and resets to zero whenever a transport
//! opens. The negotiator classifies each frame received while the
//! handshake is pending. The heartbeat scheduler's first delay is a uniform
//! jitter below the server-given interval, staggering reconnect storms.

use vstd::prelude::*;

use crate::codec::InboundEvent;

verus! {

/// The backoff that follows `b`: twice `b`, capped at 64 seconds, with a
/// floor of two so that the delay genuinely grows after a failure from a
/// standing start (0, 2, 4, 8, 16, 32, 64, 64, ...).
pub open spec fn next_backoff(b: nat) -> nat {
    if b == 0 {
        2
    } else if 2 * b >= 64 {
        64
    } else {
        2 * b
    }
}

/// The backoff after `n` consecutive connect failures of a fresh supervisor.
pub open spec fn backoff_after(n: nat) -> nat
    decreases n,
{
    if n == 0 {
        0
    } else {
        next_backoff(backoff_after((n - 1) as nat))
    }
}

/// The backoff never exceeds its cap.
pub proof fn lemma_backoff_bounded(n: nat)
    ensures
        backoff_after(n) <= 64,
    decreases n,
{
    if n > 0 {
        lemma_backoff_bounded((n - 1) as nat);
    }
}

/// Law: over any run of consecutive connect failures, the backoff values
/// are exactly those of the step relation — two from a standing start,
/// else `min(64, 2 * previous)` — so the delays before successive attempts
/// run 0, 2, 4, 8, ..., and they all stay within the 64-second cap.
pub proof fn lemma_backoff_sequence(vals: Seq<nat>)
    requires
        vals.len() > 0,
        vals[0] == 0,
        forall|i: int| 0 < i < vals.len() ==> vals[i] == next_backoff(#[trigger] vals[i - 1]),
    ensures
        forall|i: int| 0 <= i < vals.len() ==> vals[i] == backoff_after(i as nat),
        forall|i: int| 0 <= i < vals.len() ==> vals[i] <= 64,
{
    assert forall|i: int| 0 <= i < vals.len() implies vals[i] == backoff_after(i as nat) by {
        lemma_backoff_trace(vals, i);
    }
    assert forall|i: int| 0 <= i < vals.len() implies vals[i] <= 64 by {
        lemma_backoff_trace(vals, i);
        lemma_backoff_bounded(i as nat);
    }
}

proof fn lemma_backoff_trace(vals: Seq<nat>, i: int)
    requires
        vals.len() > 0,
        vals[0] == 0,
        forall|j: int| 0 < j < vals.len() ==> vals[j] == next_backoff(#[trigger] vals[j - 1]),
        0 <= i < vals.len(),
    ensures
        vals[i] == backoff_after(i as nat),
    decreases i,
{
    if i > 0 {
        lemma_backoff_trace(vals, i - 1);
    }
}

/// Outer control state of the gateway client: the reconnect backoff, in
/// seconds, applied before each connection attempt.
pub struct Supervisor {
    pub backoff_secs: u64,
}

impl Supervisor {
    /// The backoff never leaves its cap.
    pub open spec fn wf(&self) -> bool {
        self.backoff_secs <= 64
    }

    /// A fresh supervisor: no failures yet, so no delay.
    pub fn new() -> (s: Self)
        ensures
            s.backoff_secs == 0,
            s.wf(),
    {
        Supervisor { backoff_secs: 0 }
    }

    /// How long to suspend before the next connection attempt.
    pub fn delay_secs(&self) -> (r: u64)
        ensures
            r == self.backoff_secs,
    {
        self.backoff_secs
    }

    /// A transport open failed: the backoff grows — to two seconds from a
    /// standing start, else doubling — capped at 64 seconds.
    pub fn on_connect_failure(&mut self)
        ensures
            final(self).backoff_secs == next_backoff(old(self).backoff_secs as nat),
            final(self).wf(),
    {
        if self.backoff_secs == 0 {
            self.backoff_secs = 2;
        } else if self.backoff_secs >= 32 {
            self.backoff_secs = 64;
        } else {
            self.backoff_secs = 2 * self.backoff_secs;
        }
    }

    /// The transport opened: the backoff resets to zero, whatever the prior
    /// failure count was, so a successful handshake always proceeds from a
    /// clean slate.
    pub fn on_open_success(&mut self)
        ensures
            final(self).backoff_secs == 0,
            final(self).wf(),
    {
        self.backoff_secs = 0;
    }

    /// A connection attempt ended after the handshake: the backoff grows
    /// exactly when the server supplied a close reason; a bare end of
    /// stream reconnects without growth.
    pub fn on_session_end(&mut self, reason_given: bool)
        ensures
            reason_given ==> final(self).backoff_secs == next_backoff(
                old(self).backoff_secs as nat,
            ),
            !reason_given ==> final(self).backoff_secs == old(self).backoff_secs,
            old(self).wf() ==> final(self).wf(),
    {
        if reason_given {
            self.on_connect_failure();
        }
    }
}

/// What the negotiator does with one frame while the handshake is pending.
#[derive(Clone, Debug, PartialEq)]
pub enum HandshakeStep {
    /// `Hello` arrived: send `Authenticate` with the session token, then
    /// start the heartbeat on this cadence. A send failure here is fatal.
    SendAuthenticate { heartbeat_interval: u64 },
    /// Rate limited: post a notice, suspend this many milliseconds, and keep
    /// awaiting `Hello` on the same transport.
    Defer { wait_ms: u64 },
    /// Anything else is ignored; keep awaiting `Hello`.
    KeepWaiting,
}

/// Classifies one frame received while awaiting `Hello`: only `Hello`
/// advances the handshake, only `RateLimit` defers it, and every other
/// frame is ignored.
pub fn negotiate_frame(ev: &InboundEvent) -> (step: HandshakeStep)
    ensures
        match *ev {
            InboundEvent::Hello { heartbeat_interval } => step == (HandshakeStep::SendAuthenticate {
                heartbeat_interval,
            }),
            InboundEvent::RateLimit { wait_ms } => step == (HandshakeStep::Defer { wait_ms }),
            _ => step == HandshakeStep::KeepWaiting,
        },
{
    match ev {
        InboundEvent::Hello { heartbeat_interval } => HandshakeStep::SendAuthenticate {
            heartbeat_interval: *heartbeat_interval,
        },
        InboundEvent::RateLimit { wait_ms } => HandshakeStep::Defer { wait_ms: *wait_ms },
        _ => HandshakeStep::KeepWaiting,
    }
}

/// Relies on rand::Rng::gen_range over `0..bound`: a uniform sample
/// strictly below `bound` (the range is half-open, and empty ranges — ruled
/// out here — make it panic).
#[verifier::external_body]
fn sample_below(bound: u64) -> (r: u64)
    requires
        bound > 0,
    ensures
        r < bound,
{
    rand::Rng::gen_range(&mut rand::thread_rng(), 0..bound)
}

/// The delay before the first ping of a connection attempt: a jitter chosen
/// uniformly in `[0, heartbeat_interval)`, staggering the pings of many
/// clients that reconnect simultaneously. Later pings follow at exactly
/// `heartbeat_interval`, which the scheduler's driver reads from the
/// handshake.
pub fn heartbeat_jitter(heartbeat_interval: u64) -> (r: u64)
    requires
        heartbeat_interval > 0,
    ensures
        r < heartbeat_interval,
{
    sample_below(heartbeat_interval)
}

} // verus!
