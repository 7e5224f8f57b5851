use rustyproxy::conn::{conn_event_enabled, conn_init, conn_step, ConnEvent, ConnState, Phase};

#[test]
fn clean_lifecycle_runs_forward_and_closes_both_sockets() {
    let s0 = conn_init();
    assert_eq!(s0.phase, Phase::Accepted);
    assert!(s0.client_open);
    assert!(!s0.backend_open);

    let s1 = conn_step(&s0, &ConnEvent::BeginHandshake);
    assert_eq!(s1.phase, Phase::Handshaking);
    let s2 = conn_step(&s1, &ConnEvent::HandshakeDone);
    assert_eq!(s2.phase, Phase::Classifying);
    let s3 = conn_step(&s2, &ConnEvent::Classified);
    assert_eq!(s3.phase, Phase::Dialing);
    let s4 = conn_step(&s3, &ConnEvent::DialConnected);
    assert_eq!(s4.phase, Phase::Relaying);
    assert!(s4.client_open);
    assert!(s4.backend_open);
    let s5 = conn_step(&s4, &ConnEvent::RelayEnded);
    assert_eq!(s5.phase, Phase::Closed);
    assert!(!s5.client_open);
    assert!(!s5.backend_open);
}

#[test]
fn handshake_write_failure_aborts_with_no_sockets_held() {
    let s0 = conn_init();
    let s1 = conn_step(&s0, &ConnEvent::BeginHandshake);
    let s2 = conn_step(&s1, &ConnEvent::HandshakeWriteFailed);
    assert_eq!(s2.phase, Phase::Aborted);
    assert!(!s2.client_open);
    assert!(!s2.backend_open);
}

#[test]
fn dial_exhaustion_aborts_with_no_sockets_held() {
    let s0 = conn_init();
    let s1 = conn_step(&s0, &ConnEvent::BeginHandshake);
    let s2 = conn_step(&s1, &ConnEvent::HandshakeDone);
    let s3 = conn_step(&s2, &ConnEvent::Classified);
    let s4 = conn_step(&s3, &ConnEvent::DialExhausted);
    assert_eq!(s4.phase, Phase::Aborted);
    assert!(!s4.client_open);
    assert!(!s4.backend_open);
}

#[test]
fn terminal_states_never_move_again() {
    let closed = ConnState { phase: Phase::Closed, client_open: false, backend_open: false };
    let aborted = ConnState { phase: Phase::Aborted, client_open: false, backend_open: false };
    let events = [
        ConnEvent::BeginHandshake,
        ConnEvent::HandshakeDone,
        ConnEvent::HandshakeWriteFailed,
        ConnEvent::Classified,
        ConnEvent::DialConnected,
        ConnEvent::DialExhausted,
        ConnEvent::RelayEnded,
    ];
    for e in &events {
        assert!(!conn_event_enabled(&closed, e));
        assert!(!conn_event_enabled(&aborted, e));
        assert_eq!(conn_step(&closed, e), closed);
        assert_eq!(conn_step(&aborted, e), aborted);
    }
}

#[test]
fn out_of_order_events_change_nothing() {
    let s0 = conn_init();
    assert_eq!(conn_step(&s0, &ConnEvent::RelayEnded), s0);
    assert_eq!(conn_step(&s0, &ConnEvent::DialConnected), s0);
    assert!(!conn_event_enabled(&s0, &ConnEvent::HandshakeDone));
}
