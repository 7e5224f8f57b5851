use rustyproxy::classify::{
    backend_address, backend_port, classify, classify_bytes, Backend, PeekOutcome,
};

#[test]
fn ssh_banner_routes_to_ssh() {
    assert_eq!(classify_bytes(b"SSH-2.0-OpenSSH_9.6\r\n"), Backend::Ssh);
}

#[test]
fn ssh_anywhere_in_peek_routes_to_ssh() {
    assert_eq!(classify_bytes(b"\x00\x01 SSH banner later"), Backend::Ssh);
}

#[test]
fn empty_peek_routes_to_vpn() {
    assert_eq!(classify_bytes(b""), Backend::Vpn);
}

#[test]
fn non_ssh_payload_routes_to_vpn() {
    assert_eq!(classify_bytes(b"GET / HTTP/1.1\r\nHost: x\r\n\r\n"), Backend::Vpn);
    assert_eq!(classify_bytes(&[0x38, 0x01, 0x00, 0x00]), Backend::Vpn);
}

#[test]
fn signature_match_is_case_sensitive() {
    assert_eq!(classify_bytes(b"ssh-2.0 lowercase"), Backend::Vpn);
    assert_eq!(classify_bytes(b"SsH"), Backend::Vpn);
}

#[test]
fn partial_signature_routes_to_vpn() {
    assert_eq!(classify_bytes(b"SS"), Backend::Vpn);
    assert_eq!(classify_bytes(b"S S H"), Backend::Vpn);
}

#[test]
fn timeout_and_failure_route_to_vpn() {
    assert_eq!(classify(&PeekOutcome::TimedOut), Backend::Vpn);
    assert_eq!(classify(&PeekOutcome::Failed), Backend::Vpn);
}

#[test]
fn peeked_data_classifies_like_bytes() {
    assert_eq!(classify(&PeekOutcome::Data(b"SSH-2.0".to_vec())), Backend::Ssh);
    assert_eq!(classify(&PeekOutcome::Data(Vec::new())), Backend::Vpn);
}

#[test]
fn backend_addresses_are_fixed() {
    assert_eq!(backend_address(Backend::Ssh), "127.0.0.1:22");
    assert_eq!(backend_address(Backend::Vpn), "127.0.0.1:1194");
}

#[test]
fn backend_ports_are_fixed() {
    assert_eq!(backend_port(Backend::Ssh), 22);
    assert_eq!(backend_port(Backend::Vpn), 1194);
}
