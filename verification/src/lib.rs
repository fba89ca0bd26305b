//! Access-control core of a DNS blocking gateway.
//!
//! A set of registered client devices has its DNS traffic filtered by a
//! per-user, time-bounded policy.  Each user owns a set of blocked domain
//! zones and one session that says whether blocking is in force, paused, or
//! expired.  This crate holds the verified core of that system:
//!
//! - [`session`]: the session lifecycle state machine (pause / resume /
//!   expire with duration preservation);
//! - [`store`]: the in-memory row model of users, clients, domains and
//!   sessions, the lifecycle operations keyed by session id, and the
//!   blocklist resolver that maps a client address to its blocked zones;
//! - [`zone`]: the query decision engine (zone-suffix matching on DNS label
//!   boundaries, case-insensitive and trailing-dot-normalized);
//! - [`engine`]: the per-query plan (block or forward, failing open when the
//!   policy store cannot be read) and the mapping from upstream resolution
//!   outcomes to replies;
//! - [`control`]: the operations behind the HTTP control surface, each
//!   capturing the current time once;
//! - [`clock`]: the one trusted wall-clock call.
//!
//! Transport, wire codec, upstream resolution and durable persistence are
//! collaborators outside this crate; they hand the functions here plain
//! values and take plain values back.

pub mod clock;
pub mod control;
pub mod engine;
pub mod session;
pub mod store;
pub mod zone;
