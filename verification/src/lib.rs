//! Core of a real-time chat client: the gateway state machines (connection
//! supervision with reconnect backoff, handshake negotiation, heartbeat
//! scheduling, event dispatch) together with the frame codec and the shared
//! client state they maintain.
//!
//! Transport, terminal rendering and other I/O live outside this crate; they
//! feed decoded events in and carry requested actions out.

pub mod codec;
pub mod dispatch;
pub mod gateway;
pub mod highlight;
pub mod input;
pub mod json;
pub mod models;
pub mod notices;
pub mod semver;
pub mod strutil;
pub mod wrap;
