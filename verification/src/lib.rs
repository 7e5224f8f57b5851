//! A protocol-sniffing TCP relay core.
//!
//! The library holds the decision logic of a tunnel multiplexer: a
//! camouflage handshake planner, a peek-based protocol classifier, a
//! backend dialer with bounded exponential backoff, a duplex relay state
//! machine with half-close semantics, the per-connection lifecycle, and
//! port-argument parsing.  All I/O (sockets, timers, logging) lives in the
//! surrounding binary; the library computes, from plain values, every
//! decision that the binary acts on.

pub mod bytes;
pub mod classify;
pub mod conn;
pub mod dialer;
pub mod handshake;
pub mod ports;
pub mod relay;

use vstd::prelude::*;

verus! {

/// Size of each relay copy buffer, in bytes.
pub const BUFFER_SIZE: usize = 16384;

/// Maximum number of backend dial attempts per connection.
pub const CONNECTION_RETRIES: u8 = 10;

/// First delay between dial attempts, in milliseconds.
pub const BASE_DELAY_MS: u64 = 2000;

/// Cap on the delay between dial attempts, in milliseconds.
pub const MAX_BACKOFF_MS: u64 = 30000;

/// Listening port used when none is supplied or the argument is invalid.
pub const DEFAULT_PORT: u16 = 8080;

/// Upper bound on the bytes examined by one classification peek.
pub const PEEK_MAX: usize = 512;

/// Time budget for one backend dial attempt, in milliseconds.
pub const DIAL_TIMEOUT_MS: u64 = 5000;

/// Time budget for the classification peek, in milliseconds.
pub const PEEK_TIMEOUT_MS: u64 = 2000;

/// Upper bound on the single read that consumes an HTTP upgrade request.
pub const HTTP_READ_MAX: usize = 1024;

} // verus!
