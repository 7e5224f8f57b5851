//! The camouflage handshake: canned HTTP responses written to every
//! client before classification, so the tunnel resembles a web upgrade.
//!
//! Immediately after accept the handler writes `HTTP/1.1 101 <banner>`
//! followed by an empty line.  It then peeks at the client's first
//! bytes: when they contain `HTTP`, exactly one read (of up to
//! [`crate::HTTP_READ_MAX`] bytes) consumes the upgrade request, and if
//! that request names `websocket` (in any case) a second response
//! `HTTP/1.1 200 <banner>` is written.  A client that does not look
//! like HTTP — a real SSH or OpenVPN client — has nothing consumed and
//! nothing further written, so its stream reaches classification
//! untouched.

use vstd::prelude::*;

use crate::bytes::contains_seq;
use crate::bytes::contains_seq_ci;
use crate::bytes::contains_slice;
use crate::bytes::contains_slice_ci;
use crate::bytes::ends_with;

verus! {

/// The bytes of `HTTP`, the signature of an upgrade request.
pub open spec fn http_signature_spec() -> Seq<u8> {
    seq![72u8, 84u8, 84u8, 80u8]
}

/// The bytes of `websocket`, matched case-insensitively.
pub open spec fn websocket_signature_spec() -> Seq<u8> {
    seq![119u8, 101u8, 98u8, 115u8, 111u8, 99u8, 107u8, 101u8, 116u8]
}

/// The bytes of `\r\n\r\n`: the line terminator plus the empty line
/// that closes each response.
pub open spec fn crlf_crlf_spec() -> Seq<u8> {
    seq![13u8, 10u8, 13u8, 10u8]
}

/// The bytes of `HTTP/1.1 101 `.
pub open spec fn status_101_prefix_spec() -> Seq<u8> {
    seq![72u8, 84u8, 84u8, 80u8, 47u8, 49u8, 46u8, 49u8, 32u8, 49u8, 48u8, 49u8, 32u8]
}

/// The bytes of `HTTP/1.1 200 `.
pub open spec fn status_200_prefix_spec() -> Seq<u8> {
    seq![72u8, 84u8, 84u8, 80u8, 47u8, 49u8, 46u8, 49u8, 32u8, 50u8, 48u8, 48u8, 32u8]
}

/// One canned response: a status prefix, the banner, `\r\n\r\n`.
pub open spec fn response_spec(prefix: Seq<u8>, banner: Seq<u8>) -> Seq<u8> {
    prefix + banner + crlf_crlf_spec()
}

/// The greeting written to every client right after accept.
pub open spec fn greeting_spec(banner: Seq<u8>) -> Seq<u8> {
    response_spec(status_101_prefix_spec(), banner)
}

/// The second response, written only to a websocket upgrade client.
pub open spec fn upgrade_spec(banner: Seq<u8>) -> Seq<u8> {
    response_spec(status_200_prefix_spec(), banner)
}

/// Whether the handshake consumes the client's pending request:
/// exactly when the peek produced bytes and they contain `HTTP`.
pub open spec fn consumes_request(peeked: Option<Seq<u8>>) -> bool {
    match peeked {
        Option::Some(d) => contains_seq(d, http_signature_spec()),
        Option::None => false,
    }
}

/// Every frame the handshake writes to a client, in order.  `peeked`
/// is what the peek produced (`None` on timeout or failure); `payload`
/// is what the one consuming read would return, and is only consulted
/// when that read happens.
pub open spec fn handshake_frames_spec(
    banner: Seq<u8>,
    peeked: Option<Seq<u8>>,
    payload: Seq<u8>,
) -> Seq<Seq<u8>> {
    if consumes_request(peeked) && contains_seq_ci(payload, websocket_signature_spec()) {
        seq![greeting_spec(banner), upgrade_spec(banner)]
    } else {
        seq![greeting_spec(banner)]
    }
}

/// Appends `\r\n\r\n` to a response under construction.
fn push_crlf_crlf(v: &mut Vec<u8>)
    ensures
        final(v)@ == old(v)@ + crlf_crlf_spec(),
{
    v.push(13);
    v.push(10);
    v.push(13);
    v.push(10);
    assert(v@ =~= old(v)@ + crlf_crlf_spec());
}

/// Builds the greeting `HTTP/1.1 101 <banner>\r\n\r\n`.
pub fn greeting_response(banner: &[u8]) -> (v: Vec<u8>)
    ensures
        v@ == greeting_spec(banner@),
{
    let mut v: Vec<u8> = Vec::new();
    v.push(72);
    v.push(84);
    v.push(84);
    v.push(80);
    v.push(47);
    v.push(49);
    v.push(46);
    v.push(49);
    v.push(32);
    v.push(49);
    v.push(48);
    v.push(49);
    v.push(32);
    assert(v@ =~= status_101_prefix_spec());
    v.extend_from_slice(banner);
    push_crlf_crlf(&mut v);
    v
}

/// Builds the upgrade reply `HTTP/1.1 200 <banner>\r\n\r\n`.
pub fn upgrade_response(banner: &[u8]) -> (v: Vec<u8>)
    ensures
        v@ == upgrade_spec(banner@),
{
    let mut v: Vec<u8> = Vec::new();
    v.push(72);
    v.push(84);
    v.push(84);
    v.push(80);
    v.push(47);
    v.push(49);
    v.push(46);
    v.push(49);
    v.push(32);
    v.push(50);
    v.push(48);
    v.push(48);
    v.push(32);
    assert(v@ =~= status_200_prefix_spec());
    v.extend_from_slice(banner);
    push_crlf_crlf(&mut v);
    v
}

/// Whether peeked bytes look like an HTTP upgrade request.
pub fn is_http_upgrade(peeked: &[u8]) -> (r: bool)
    ensures
        r == contains_seq(peeked@, http_signature_spec()),
{
    let mut sig: Vec<u8> = Vec::new();
    sig.push(72);
    sig.push(84);
    sig.push(84);
    sig.push(80);
    assert(sig@ =~= http_signature_spec());
    contains_slice(peeked, sig.as_slice())
}

/// Whether a consumed request asks for a websocket upgrade (any case).
pub fn wants_websocket(payload: &[u8]) -> (r: bool)
    ensures
        r == contains_seq_ci(payload@, websocket_signature_spec()),
{
    let mut sig: Vec<u8> = Vec::new();
    sig.push(119);
    sig.push(101);
    sig.push(98);
    sig.push(115);
    sig.push(111);
    sig.push(99);
    sig.push(107);
    sig.push(101);
    sig.push(116);
    assert(sig@ =~= websocket_signature_spec());
    contains_slice_ci(payload, sig.as_slice())
}

/// Computes every frame the handshake writes for one client, in order:
/// the greeting, then — only for an HTTP peek whose consumed request
/// names `websocket` — the upgrade reply.
pub fn handshake_frames(banner: &[u8], peeked: Option<&Vec<u8>>, payload: &[u8]) -> (frames: Vec<
    Vec<u8>,
>)
    ensures
        frames.deep_view() == handshake_frames_spec(
            banner@,
            match peeked {
                Option::Some(d) => Option::Some(d@),
                Option::None => Option::None,
            },
            payload@,
        ),
{
    let mut frames: Vec<Vec<u8>> = Vec::new();
    frames.push(greeting_response(banner));
    let consuming = match peeked {
        Option::Some(d) => is_http_upgrade(d.as_slice()),
        Option::None => false,
    };
    if consuming && wants_websocket(payload) {
        frames.push(upgrade_response(banner));
        assert(frames.deep_view() =~~= seq![greeting_spec(banner@), upgrade_spec(banner@)]);
    } else {
        assert(frames.deep_view() =~~= seq![greeting_spec(banner@)]);
    }
    frames
}

/// Law: an HTTP-upgrade client whose request names `websocket` in any
/// mix of cases is answered with exactly two frames — the `101`
/// greeting, then the `200` upgrade reply — in that order, and each
/// frame is terminated by `\r\n\r\n`.
pub proof fn lemma_handshake_two_frames(banner: Seq<u8>, peeked: Seq<u8>, payload: Seq<u8>)
    requires
        contains_seq(peeked, http_signature_spec()),
        contains_seq_ci(payload, websocket_signature_spec()),
    ensures
        handshake_frames_spec(banner, Option::Some(peeked), payload) == seq![
            greeting_spec(banner),
            upgrade_spec(banner),
        ],
        ends_with(greeting_spec(banner), crlf_crlf_spec()),
        ends_with(upgrade_spec(banner), crlf_crlf_spec()),
{
    lemma_response_terminated(status_101_prefix_spec(), banner);
    lemma_response_terminated(status_200_prefix_spec(), banner);
}

/// Law: the handshake's frames depend on the consumed payload only
/// through its bytes.  Two transports that deliver that payload in
/// different segments — `chunks1` and `chunks2`, concatenating to the
/// same bytes — yield the identical frame sequence, so the response
/// framing is independent of transport-level chunking once the peeked
/// bytes and the consumed bytes themselves are fixed.
pub proof fn lemma_handshake_chunking_independent(
    banner: Seq<u8>,
    peeked: Option<Seq<u8>>,
    chunks1: Seq<Seq<u8>>,
    chunks2: Seq<Seq<u8>>,
)
    requires
        chunks1.flatten() == chunks2.flatten(),
    ensures
        handshake_frames_spec(banner, peeked, chunks1.flatten()) == handshake_frames_spec(
            banner,
            peeked,
            chunks2.flatten(),
        ),
{
}

/// Law: a client whose peek shows no `HTTP` — a raw SSH or VPN client,
/// or one whose peek timed out — has nothing consumed from its stream
/// and receives only the greeting frame.
pub proof fn lemma_handshake_passthrough(banner: Seq<u8>, peeked: Option<Seq<u8>>, payload: Seq<u8>)
    requires
        peeked is Some ==> !contains_seq(peeked.unwrap(), http_signature_spec()),
    ensures
        !consumes_request(peeked),
        handshake_frames_spec(banner, peeked, payload) == seq![greeting_spec(banner)],
{
}

/// Every canned response ends with `\r\n\r\n`.
pub proof fn lemma_response_terminated(prefix: Seq<u8>, banner: Seq<u8>)
    ensures
        ends_with(response_spec(prefix, banner), crlf_crlf_spec()),
{
    let r = response_spec(prefix, banner);
    assert(r.subrange(r.len() - crlf_crlf_spec().len(), r.len() as int) =~= crlf_crlf_spec());
}

} // verus!
