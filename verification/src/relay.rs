//! The duplex relay: two independent unidirectional copy loops per
//! connection, with half-close on end-of-stream and coordinated
//! teardown.
//!
//! Each direction repeatedly reads from its source and writes to its
//! destination.  A read of zero bytes (clean end-of-stream) or a read
//! error terminates the direction and half-closes the destination's
//! write side — a shutdown of that one direction, so the peer can still
//! flush whatever the opposite loop is carrying.  A write error
//! terminates the direction at once, with no further writes and no
//! half-close of its own.  The relay as a whole is finished once both
//! directions have terminated; only then are both sockets fully closed.
//! The socket calls live in the surrounding binary; this module decides
//! each loop's next move and carries the model that the relay laws are
//! proved over.

use vstd::prelude::*;

verus! {

/// What one relay direction just observed.
#[derive(Debug)]
pub enum RelayEvent {
    /// A chunk was read from the source and written through to the
    /// destination.
    Forwarded(Vec<u8>),
    /// A read returned zero bytes: the source is exhausted.
    SourceClosed,
    /// A read from the source failed.
    ReadFailed,
    /// A write to the destination failed; the chunk did not go through.
    WriteFailed,
}

/// A relay direction's next move.
#[derive(Clone, Copy, Debug, PartialEq, Eq, Structural)]
pub enum RelayAction {
    /// Keep going: read from the source again.
    Continue,
    /// Shut down the destination's write side, then stop this
    /// direction.
    HalfCloseDest,
    /// Stop this direction at once, without touching the destination.
    Stop,
}

/// The state of one relay direction.
#[derive(Clone, Copy, Debug, PartialEq, Eq, Structural)]
pub struct RelayDirState {
    /// This direction has terminated.
    pub done: bool,
    /// This direction has signalled half-close of its destination.
    pub half_closed: bool,
}

/// A relay event as the specification sees it.
pub enum RelayEventModel {
    /// A chunk of bytes went through to the destination.
    Chunk(Seq<u8>),
    /// The source reached end of stream.
    Eof,
    /// A read failed.
    ReadError,
    /// A write failed.
    WriteError,
}

impl RelayEvent {
    /// The event at the specification level.
    pub open spec fn model(&self) -> RelayEventModel {
        match self {
            RelayEvent::Forwarded(c) => RelayEventModel::Chunk(c@),
            RelayEvent::SourceClosed => RelayEventModel::Eof,
            RelayEvent::ReadFailed => RelayEventModel::ReadError,
            RelayEvent::WriteFailed => RelayEventModel::WriteError,
        }
    }
}

/// Everything one direction has done so far: the bytes it has written
/// through to its destination, in order, and its termination flags.
pub struct DirTrace {
    /// Bytes delivered to the destination, in source order.
    pub forwarded: Seq<u8>,
    /// The direction has terminated.
    pub done: bool,
    /// The destination's write side has been half-closed.
    pub half_closed: bool,
}

/// A direction's trace before its first event.
pub open spec fn dir_trace_init() -> DirTrace {
    DirTrace { forwarded: Seq::empty(), done: false, half_closed: false }
}

/// How a direction's flags and action follow from one event.
pub open spec fn dir_step_spec(s: RelayDirState, e: RelayEventModel) -> (RelayDirState, RelayAction) {
    match e {
        RelayEventModel::Chunk(c) => (s, RelayAction::Continue),
        RelayEventModel::Eof => (
            RelayDirState { done: true, half_closed: true },
            RelayAction::HalfCloseDest,
        ),
        RelayEventModel::ReadError => (
            RelayDirState { done: true, half_closed: true },
            RelayAction::HalfCloseDest,
        ),
        RelayEventModel::WriteError => (
            RelayDirState { done: true, half_closed: s.half_closed },
            RelayAction::Stop,
        ),
    }
}

/// How one event advances a direction's trace.  Events after
/// termination change nothing: a terminated loop observes nothing more.
pub open spec fn dir_trace_step(t: DirTrace, e: RelayEventModel) -> DirTrace {
    if t.done {
        t
    } else {
        match e {
            RelayEventModel::Chunk(c) => DirTrace {
                forwarded: t.forwarded + c,
                done: t.done,
                half_closed: t.half_closed,
            },
            RelayEventModel::Eof => DirTrace {
                forwarded: t.forwarded,
                done: true,
                half_closed: true,
            },
            RelayEventModel::ReadError => DirTrace {
                forwarded: t.forwarded,
                done: true,
                half_closed: true,
            },
            RelayEventModel::WriteError => DirTrace {
                forwarded: t.forwarded,
                done: true,
                half_closed: t.half_closed,
            },
        }
    }
}

/// The trace of a direction that observed `evs`, in order.
pub open spec fn dir_run(evs: Seq<RelayEventModel>) -> DirTrace
    decreases evs.len(),
{
    if evs.len() == 0 {
        dir_trace_init()
    } else {
        dir_trace_step(dir_run(evs.drop_last()), evs.last())
    }
}

/// A direction's state before its first event.
pub fn dir_init() -> (s: RelayDirState)
    ensures
        s.done == false,
        s.half_closed == false,
{
    RelayDirState { done: false, half_closed: false }
}

/// Decides a direction's next move from what it just observed.  A
/// forwarded chunk continues the loop; end-of-stream and read errors
/// half-close the destination and stop; a write error stops at once.
pub fn dir_step(s: &RelayDirState, ev: &RelayEvent) -> (r: (RelayDirState, RelayAction))
    requires
        !s.done,
    ensures
        r == dir_step_spec(*s, ev.model()),
        r.0.done <==> !(ev.model() is Chunk),
        r.0.half_closed <==> (ev.model() is Eof || ev.model() is ReadError || s.half_closed),
{
    match ev {
        RelayEvent::Forwarded(_) => (*s, RelayAction::Continue),
        RelayEvent::SourceClosed => (
            RelayDirState { done: true, half_closed: true },
            RelayAction::HalfCloseDest,
        ),
        RelayEvent::ReadFailed => (
            RelayDirState { done: true, half_closed: true },
            RelayAction::HalfCloseDest,
        ),
        RelayEvent::WriteFailed => (
            RelayDirState { done: true, half_closed: s.half_closed },
            RelayAction::Stop,
        ),
    }
}

/// The two directions of one connection's relay.
#[derive(Clone, Copy, Debug, PartialEq, Eq, Structural)]
pub struct RelayPair {
    /// The client-to-backend direction.
    pub client_to_backend: RelayDirState,
    /// The backend-to-client direction.
    pub backend_to_client: RelayDirState,
}

/// A relay pair before any event.
pub fn pair_init() -> (p: RelayPair)
    ensures
        !p.client_to_backend.done,
        !p.backend_to_client.done,
{
    RelayPair { client_to_backend: dir_init(), backend_to_client: dir_init() }
}

/// The relay is finished — and both sockets may be fully closed —
/// exactly when both directions have terminated.
pub fn relay_finished(p: &RelayPair) -> (r: bool)
    ensures
        r == (p.client_to_backend.done && p.backend_to_client.done),
{
    p.client_to_backend.done && p.backend_to_client.done
}

/// The events of a clean transfer: every chunk goes through, then the
/// source closes.
pub open spec fn clean_events(chunks: Seq<Seq<u8>>) -> Seq<RelayEventModel> {
    chunks.map_values(|c: Seq<u8>| RelayEventModel::Chunk(c)).push(RelayEventModel::Eof)
}

/// The trace of chunk events alone forwards their concatenation and
/// terminates nothing.
proof fn lemma_run_chunks(chunks: Seq<Seq<u8>>)
    ensures
        dir_run(chunks.map_values(|c: Seq<u8>| RelayEventModel::Chunk(c))).forwarded
            == chunks.flatten_alt(),
        !dir_run(chunks.map_values(|c: Seq<u8>| RelayEventModel::Chunk(c))).done,
        !dir_run(chunks.map_values(|c: Seq<u8>| RelayEventModel::Chunk(c))).half_closed,
    decreases chunks.len(),
{
    let evs = chunks.map_values(|c: Seq<u8>| RelayEventModel::Chunk(c));
    if chunks.len() == 0 {
        assert(dir_run(evs).forwarded =~= chunks.flatten_alt());
    } else {
        let prefix = chunks.drop_last();
        lemma_run_chunks(prefix);
        assert(evs.drop_last() =~= prefix.map_values(|c: Seq<u8>| RelayEventModel::Chunk(c)));
        assert(evs.last() == RelayEventModel::Chunk(chunks.last()));
    }
}

/// Law: when a source sends some chunks and then cleanly closes, the
/// relay direction delivers exactly those bytes, in order, to its
/// destination, terminates, and half-closes the destination's write
/// side.  Both directions run this same step function, so the claim
/// holds symmetrically for client-to-backend and backend-to-client.
pub proof fn lemma_relay_completeness(chunks: Seq<Seq<u8>>)
    ensures
        dir_run(clean_events(chunks)).forwarded == chunks.flatten(),
        dir_run(clean_events(chunks)).done,
        dir_run(clean_events(chunks)).half_closed,
{
    let evs = chunks.map_values(|c: Seq<u8>| RelayEventModel::Chunk(c));
    lemma_run_chunks(chunks);
    chunks.lemma_flatten_and_flatten_alt_are_equivalent();
    assert(clean_events(chunks).drop_last() =~= evs);
    assert(clean_events(chunks).last() == RelayEventModel::Eof);
}

/// Law: a direction that has terminated is never reawakened — every
/// later event leaves its trace exactly as it is.  In particular its
/// destination is half-closed at most once.
pub proof fn lemma_relay_termination_stable(t: DirTrace, e: RelayEventModel)
    requires
        t.done,
    ensures
        dir_trace_step(t, e) == t,
{
}

} // verus!
