//! The per-connection lifecycle: a handler moves strictly forward
//! through handshake, classification, dialing and relaying, and every
//! terminal phase guarantees that the sockets it held are released.
//!
//! Failures reach the terminal `Aborted` phase: a handshake write
//! failure (the client is presumed gone) and dial exhaustion both end
//! the connection with no relay.  A completed relay ends in `Closed`.
//! No phase is ever revisited, and a terminal phase has no further
//! transitions, so sockets are closed exactly once.

use vstd::prelude::*;

verus! {

/// The phases of one connection's handling.
#[derive(Clone, Copy, Debug, PartialEq, Eq, Structural)]
pub enum Phase {
    /// The connection was just accepted.
    Accepted,
    /// The camouflage handshake is in progress.
    Handshaking,
    /// The classification peek is in progress.
    Classifying,
    /// The backend is being dialed.
    Dialing,
    /// Both relay directions are running.
    Relaying,
    /// The relay finished and both sockets are closed.
    Closed,
    /// The connection failed and every held socket is closed.
    Aborted,
}

/// Phases in their strict forward order; the two terminal phases share
/// the final position.
pub open spec fn phase_rank(p: Phase) -> int {
    match p {
        Phase::Accepted => 0,
        Phase::Handshaking => 1,
        Phase::Classifying => 2,
        Phase::Dialing => 3,
        Phase::Relaying => 4,
        Phase::Closed => 5,
        Phase::Aborted => 5,
    }
}

/// The two phases a connection can end in.
pub open spec fn is_terminal(p: Phase) -> bool {
    p == Phase::Closed || p == Phase::Aborted
}

/// One connection's lifecycle state, with the sockets it holds.
#[derive(Clone, Copy, Debug, PartialEq, Eq, Structural)]
pub struct ConnState {
    /// Where the handler stands.
    pub phase: Phase,
    /// The client socket is still open.
    pub client_open: bool,
    /// A backend socket exists and is still open.
    pub backend_open: bool,
}

/// What moves a connection from one phase to the next.
#[derive(Clone, Copy, Debug, PartialEq, Eq, Structural)]
pub enum ConnEvent {
    /// The handler starts writing the camouflage greeting.
    BeginHandshake,
    /// The handshake completed; on to classification.
    HandshakeDone,
    /// A handshake write failed: the connection is abandoned.
    HandshakeWriteFailed,
    /// A backend was chosen; on to dialing.
    Classified,
    /// A dial attempt succeeded; the relay starts.
    DialConnected,
    /// Every dial attempt failed: the connection is abandoned.
    DialExhausted,
    /// Both relay directions terminated.
    RelayEnded,
}

/// The terminal invariant the whole design protects: terminal phases
/// hold no sockets, a backend socket exists only while relaying, and a
/// live connection still holds its client socket.
pub open spec fn conn_inv(s: ConnState) -> bool {
    &&& is_terminal(s.phase) ==> !s.client_open && !s.backend_open
    &&& s.backend_open <==> s.phase == Phase::Relaying
    &&& !is_terminal(s.phase) ==> s.client_open
}

/// Which event a handler in state `s` can produce next.  Terminal
/// phases enable nothing: a finished connection never moves again.
pub open spec fn event_enabled(s: ConnState, e: ConnEvent) -> bool {
    match e {
        ConnEvent::BeginHandshake => s.phase == Phase::Accepted,
        ConnEvent::HandshakeDone => s.phase == Phase::Handshaking,
        ConnEvent::HandshakeWriteFailed => s.phase == Phase::Handshaking,
        ConnEvent::Classified => s.phase == Phase::Classifying,
        ConnEvent::DialConnected => s.phase == Phase::Dialing,
        ConnEvent::DialExhausted => s.phase == Phase::Dialing,
        ConnEvent::RelayEnded => s.phase == Phase::Relaying,
    }
}

/// The state after `e` in state `s`.
pub open spec fn conn_step_spec(s: ConnState, e: ConnEvent) -> ConnState {
    match e {
        ConnEvent::BeginHandshake => ConnState {
            phase: Phase::Handshaking,
            client_open: s.client_open,
            backend_open: s.backend_open,
        },
        ConnEvent::HandshakeDone => ConnState {
            phase: Phase::Classifying,
            client_open: s.client_open,
            backend_open: s.backend_open,
        },
        ConnEvent::HandshakeWriteFailed => ConnState {
            phase: Phase::Aborted,
            client_open: false,
            backend_open: false,
        },
        ConnEvent::Classified => ConnState {
            phase: Phase::Dialing,
            client_open: s.client_open,
            backend_open: s.backend_open,
        },
        ConnEvent::DialConnected => ConnState {
            phase: Phase::Relaying,
            client_open: s.client_open,
            backend_open: true,
        },
        ConnEvent::DialExhausted => ConnState {
            phase: Phase::Aborted,
            client_open: false,
            backend_open: false,
        },
        ConnEvent::RelayEnded => ConnState {
            phase: Phase::Closed,
            client_open: false,
            backend_open: false,
        },
    }
}

/// Whether a handler in state `s` can produce `e` next.
pub fn conn_event_enabled(s: &ConnState, e: &ConnEvent) -> (r: bool)
    ensures
        r == event_enabled(*s, *e),
{
    match e {
        ConnEvent::BeginHandshake => s.phase == Phase::Accepted,
        ConnEvent::HandshakeDone => s.phase == Phase::Handshaking,
        ConnEvent::HandshakeWriteFailed => s.phase == Phase::Handshaking,
        ConnEvent::Classified => s.phase == Phase::Classifying,
        ConnEvent::DialConnected => s.phase == Phase::Dialing,
        ConnEvent::DialExhausted => s.phase == Phase::Dialing,
        ConnEvent::RelayEnded => s.phase == Phase::Relaying,
    }
}

/// A connection's state right after accept.
pub fn conn_init() -> (s: ConnState)
    ensures
        s.phase == Phase::Accepted,
        s.client_open,
        !s.backend_open,
        conn_inv(s),
{
    ConnState { phase: Phase::Accepted, client_open: true, backend_open: false }
}

/// Advances a connection one lifecycle step.  An event its phase does
/// not enable changes nothing; an enabled event moves the phase
/// strictly forward, preserves the invariant, and — when it reaches a
/// terminal phase — releases every socket.
pub fn conn_step(s: &ConnState, e: &ConnEvent) -> (r: ConnState)
    ensures
        event_enabled(*s, *e) ==> r == conn_step_spec(*s, *e),
        event_enabled(*s, *e) && conn_inv(*s) ==> conn_inv(r),
        event_enabled(*s, *e) ==> phase_rank(r.phase) > phase_rank(s.phase),
        event_enabled(*s, *e) && is_terminal(r.phase) ==> !r.client_open && !r.backend_open,
        !event_enabled(*s, *e) ==> r == *s,
{
    if !conn_event_enabled(s, e) {
        return *s;
    }
    match e {
        ConnEvent::BeginHandshake => ConnState {
            phase: Phase::Handshaking,
            client_open: s.client_open,
            backend_open: s.backend_open,
        },
        ConnEvent::HandshakeDone => ConnState {
            phase: Phase::Classifying,
            client_open: s.client_open,
            backend_open: s.backend_open,
        },
        ConnEvent::HandshakeWriteFailed => ConnState {
            phase: Phase::Aborted,
            client_open: false,
            backend_open: false,
        },
        ConnEvent::Classified => ConnState {
            phase: Phase::Dialing,
            client_open: s.client_open,
            backend_open: s.backend_open,
        },
        ConnEvent::DialConnected => ConnState {
            phase: Phase::Relaying,
            client_open: s.client_open,
            backend_open: true,
        },
        ConnEvent::DialExhausted => ConnState {
            phase: Phase::Aborted,
            client_open: false,
            backend_open: false,
        },
        ConnEvent::RelayEnded => ConnState {
            phase: Phase::Closed,
            client_open: false,
            backend_open: false,
        },
    }
}

/// Law: lifecycle phases are never revisited — every enabled step
/// strictly increases the phase's rank — and a terminal phase enables
/// no event at all, so a connection's sockets are released exactly
/// once.
pub proof fn lemma_lifecycle_forward(s: ConnState, e: ConnEvent)
    ensures
        event_enabled(s, e) ==> phase_rank(conn_step_spec(s, e).phase) > phase_rank(s.phase),
        is_terminal(s.phase) ==> !event_enabled(s, e),
{
}

} // verus!
