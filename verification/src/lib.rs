//! Core of a client for a real-time push API: the session state machine that
//! manages the connect/identify/resume/heartbeat lifecycle over a persistent
//! transport, and the rate-limited request client that serializes outbound
//! REST calls against global and per-resource throttles.
//!
//! All protocol decisions live here as verified functions over plain values;
//! the surrounding I/O (sockets, HTTP, timers) is left to the embedding
//! program, which feeds decoded frames and clock readings in and carries the
//! returned actions out.
//!
//! - [`protocol`] — opcodes, frame payloads, and the two-pass payload
//!   selection keyed by the frame envelope.
//! - [`session`] — the per-connection engine: hello, identify or resume,
//!   steady state with heartbeats, and the liveness check.
//! - [`shard`] — the supervisor that answers engine failures with bounded
//!   resume or reconnect series, or stops the shard for good.
//! - [`error`] — the error taxonomy and the close-code classification.
//! - [`limits`] — the rate limit bookkeeping: one global deadline and one
//!   deadline per resource bucket.
//! - [`request`] — the request loop's decisions: status classification,
//!   throttle header parsing, and how a response updates the limits.
//! - [`paths`] — extraction of the rate-limit resource id from a path.
//! - [`routes`] — the endpoint catalog and the per-instance client state.
//! - [`scanner`] — the gift scanner's decisions: the message pattern, code
//!   dedup, the shared guild registry, and redeem classification.
//! - [`types`] — plain domain values of the REST surface.
//! - [`text`] — verified decimal formatting.

pub mod error;
pub mod limits;
pub mod paths;
pub mod protocol;
pub mod request;
pub mod routes;
pub mod scanner;
pub mod session;
pub mod shard;
pub mod text;
pub mod types;
