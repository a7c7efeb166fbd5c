//! A TLS-terminating proxy's verified core: a capacity-bounded connection
//! pool with least-recently-used eviction, the per-connection lifecycle
//! state machine that drives it, and the startup path that turns PEM bytes
//! into a server TLS configuration.
//!
//! Sockets, streams and file reads live outside this crate; they hand plain
//! values in and take plain values back.

pub mod dispatch;
pub mod lifecycle;
pub mod pool;
pub mod tls;
