//! Protocol classification: decide which backend a freshly accepted
//! connection should be relayed to, from a non-consuming peek at its
//! first bytes.
//!
//! A connection whose early bytes contain the signature `SSH` (the SSH
//! version-exchange banner is `SSH-...`) is routed to the SSH backend.
//! Every other connection — including one whose peek timed out or
//! failed, and one that sent nothing — is routed to the VPN backend:
//! VPN clients send no early identifiable banner, so ambiguity must
//! fall back to VPN.

use vstd::prelude::*;

use crate::bytes::contains_seq;
use crate::bytes::contains_slice;

verus! {

/// The two backends a connection can be relayed to.
#[derive(Clone, Copy, Debug, PartialEq, Eq, Structural)]
pub enum Backend {
    /// The local SSH daemon.
    Ssh,
    /// The local OpenVPN daemon.
    Vpn,
}

/// What one bounded-time peek at the client produced.
#[derive(Debug)]
pub enum PeekOutcome {
    /// The peek returned these bytes (left on the stream).
    Data(Vec<u8>),
    /// No data arrived within the peek's time budget.
    TimedOut,
    /// The peek itself failed with an I/O error.
    Failed,
}

/// The classification signature: the bytes of `SSH`.
pub open spec fn ssh_signature_spec() -> Seq<u8> {
    seq![83u8, 83u8, 72u8]
}

/// The backend chosen for a connection whose peek produced `o`.
pub open spec fn classification(o: PeekOutcome) -> Backend {
    match o {
        PeekOutcome::Data(d) => if contains_seq(d@, ssh_signature_spec()) {
            Backend::Ssh
        } else {
            Backend::Vpn
        },
        PeekOutcome::TimedOut => Backend::Vpn,
        PeekOutcome::Failed => Backend::Vpn,
    }
}

/// The bytes of the signature `SSH`.
pub fn ssh_signature() -> (v: Vec<u8>)
    ensures
        v@ == ssh_signature_spec(),
{
    let mut v: Vec<u8> = Vec::new();
    v.push(83);
    v.push(83);
    v.push(72);
    assert(v@ =~= ssh_signature_spec());
    v
}

/// Classifies peeked bytes: SSH exactly when they contain `SSH`.
pub fn classify_bytes(peeked: &[u8]) -> (b: Backend)
    ensures
        b == Backend::Ssh <==> contains_seq(peeked@, ssh_signature_spec()),
        b == Backend::Ssh || b == Backend::Vpn,
{
    let sig = ssh_signature();
    if contains_slice(peeked, sig.as_slice()) {
        Backend::Ssh
    } else {
        Backend::Vpn
    }
}

/// Classifies a peek outcome; a timeout or failure falls back to VPN.
pub fn classify(outcome: &PeekOutcome) -> (b: Backend)
    ensures
        b == classification(*outcome),
{
    match outcome {
        PeekOutcome::Data(d) => classify_bytes(d.as_slice()),
        PeekOutcome::TimedOut => Backend::Vpn,
        PeekOutcome::Failed => Backend::Vpn,
    }
}

/// The fixed local address of each backend.
pub open spec fn backend_address_spec(b: Backend) -> Seq<char> {
    match b {
        Backend::Ssh => "127.0.0.1:22"@,
        Backend::Vpn => "127.0.0.1:1194"@,
    }
}

/// The address string a classified connection is dialed to.
pub fn backend_address(b: Backend) -> (s: &'static str)
    ensures
        s@ == backend_address_spec(b),
{
    match b {
        Backend::Ssh => "127.0.0.1:22",
        Backend::Vpn => "127.0.0.1:1194",
    }
}

/// The TCP port of each backend: 22 for SSH, 1194 for OpenVPN.
pub fn backend_port(b: Backend) -> (p: u16)
    ensures
        b == Backend::Ssh ==> p == 22,
        b == Backend::Vpn ==> p == 1194,
{
    match b {
        Backend::Ssh => 22,
        Backend::Vpn => 1194,
    }
}

} // verus!
