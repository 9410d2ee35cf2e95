use driftcode::diagnostics::{push_bounded, record_connect_attempt, record_panic, record_trace,
    ConnectAttemptRecord, DiagnosticsState, PanicRecord, PANIC_BUFFER_MAX};
use driftcode::trace::{disable_trace, enable_trace, parse_trace_env, TraceEvent, TraceState};
use driftcode::transcript::HandshakeTranscript;

#[test]
fn transcript_counts_bytes_both_ways() {
    let mut t = HandshakeTranscript::new();
    t.on_write(b"abc");
    t.on_write(b"de");
    t.on_read(b"xyzw");
    assert_eq!(t.bytes_written, 5);
    assert_eq!(t.bytes_read, 4);
}

#[test]
fn banner_captured_from_first_line() {
    let mut t = HandshakeTranscript::new();
    t.on_read(b"SSH-2.0-OpenSSH_9.6");
    assert!(t.server_id.is_none(), "no newline yet");
    t.on_read(b"\r\nmore bytes");
    assert_eq!(t.server_id.as_deref(), Some("SSH-2.0-OpenSSH_9.6"));
    let before = t.server_id.clone();
    t.on_read(b"SSH-9.9-bogus\n");
    assert_eq!(t.server_id, before, "banner is captured once");
}

#[test]
fn non_banner_first_line_is_ignored() {
    let mut t = HandshakeTranscript::new();
    t.on_write(b"HTTP/1.1 400\n");
    assert!(t.client_id.is_none());
}

#[test]
fn snapshot_carries_counters_and_banners() {
    let mut t = HandshakeTranscript::new();
    t.on_write(b"SSH-2.0-client\n");
    t.on_read(b"SSH-2.0-server\n");
    let d = t.snapshot("attempt-1");
    assert_eq!(d.attempt_id, "attempt-1");
    assert_eq!(d.client_id.as_deref(), Some("SSH-2.0-client"));
    assert_eq!(d.server_id.as_deref(), Some("SSH-2.0-server"));
    assert_eq!(d.bytes_written, 15);
    assert_eq!(d.bytes_read, 15);
}

#[test]
fn trace_toggle() {
    let mut t = TraceState::new(false);
    assert!(!t.is_trace_enabled());
    enable_trace(&mut t);
    assert!(t.is_trace_enabled());
    disable_trace(&mut t);
    assert!(!t.is_trace_enabled());
    let env = TraceState::new(true);
    assert!(env.is_trace_enabled());
}

#[test]
fn trace_env_values() {
    assert!(parse_trace_env(Some(&String::from("1"))));
    assert!(parse_trace_env(Some(&String::from("true"))));
    assert!(parse_trace_env(Some(&String::from("TRUE"))));
    assert!(!parse_trace_env(Some(&String::from("0"))));
    assert!(!parse_trace_env(Some(&String::from("yes"))));
    assert!(!parse_trace_env(None));
}

#[test]
fn trace_event_builders() {
    let e = TraceEvent::new("dns", "lookup", "Resolving example.test:22");
    assert_eq!(e.category, "dns");
    assert_eq!(e.step, "lookup");
    assert_eq!(e.message, "Resolving example.test:22");
    assert!(e.detail.is_none());
    assert!(!e.is_error);
    let e = e.with_detail(String::from("8s timeout")).error();
    assert_eq!(e.detail.as_deref(), Some("8s timeout"));
    assert!(e.is_error);
}

#[test]
fn bounded_push_sheds_oldest() {
    let mut ring: Vec<u32> = vec![1, 2, 3];
    push_bounded(&mut ring, 3, 4);
    assert_eq!(ring, vec![2, 3, 4]);
    let mut ring: Vec<u32> = vec![1];
    push_bounded(&mut ring, 3, 2);
    assert_eq!(ring, vec![1, 2]);
}

#[test]
fn panic_ring_is_bounded() {
    let mut state = DiagnosticsState::new();
    for i in 0..(PANIC_BUFFER_MAX + 5) {
        record_panic(
            &mut state,
            PanicRecord {
                timestamp: i as u64,
                message: String::from("boom"),
                location: None,
                backtrace: None,
            },
        );
    }
    assert_eq!(state.panics.len(), PANIC_BUFFER_MAX);
    assert_eq!(state.panics[0].timestamp, 5);
}

#[test]
fn rings_are_independent() {
    let mut state = DiagnosticsState::new();
    record_trace(&mut state, &TraceEvent::new("tcp", "connect", "TCP connecting"));
    record_connect_attempt(
        &mut state,
        ConnectAttemptRecord {
            timestamp: 1,
            attempt_id: String::from("a"),
            host: String::from("example.test"),
            port: 22,
            username: String::from("alice"),
            addr: None,
            resolved_addrs: vec![],
            client_id: None,
            server_id: None,
            bytes_written: 0,
            bytes_read: 0,
            outcome: String::from("tcp_connect_timeout"),
            outcome_detail: None,
        },
    );
    assert_eq!(state.traces.len(), 1);
    assert_eq!(state.connect_attempts.len(), 1);
    assert_eq!(state.panics.len(), 0);
    assert_eq!(state.traces[0].category, "tcp");
    assert_eq!(state.connect_attempts[0].outcome, "tcp_connect_timeout");
}
