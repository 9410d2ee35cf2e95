use driftcode::connect::{classify_auth, classify_dns, sort_addresses, AuthOutcome, ConnectPlan,
    ConnectStep, HandshakeOutcome, ResolvedAddr, TcpOutcome, HANDSHAKE_RETRY_DELAY_MS,
    KEEPALIVE_INTERVAL_SECS, KEEPALIVE_MAX, TCP_CONNECT_TIMEOUT_MS};
use driftcode::error::SshError;

fn addr(a: &str, v6: bool) -> ResolvedAddr {
    ResolvedAddr { addr: String::from(a), is_ipv6: v6 }
}

#[test]
fn transport_constants() {
    assert_eq!(TCP_CONNECT_TIMEOUT_MS, 8_000);
    assert_eq!(HANDSHAKE_RETRY_DELAY_MS, 200);
    assert_eq!(KEEPALIVE_INTERVAL_SECS, 20);
    assert_eq!(KEEPALIVE_MAX, 3);
}

#[test]
fn ipv4_sorts_before_ipv6_stably() {
    let sorted = sort_addresses(vec![
        addr("[::1]:22", true),
        addr("1.1.1.1:22", false),
        addr("[::2]:22", true),
        addr("2.2.2.2:22", false),
    ]);
    let names: Vec<&str> = sorted.iter().map(|a| a.addr.as_str()).collect();
    assert_eq!(names, vec!["1.1.1.1:22", "2.2.2.2:22", "[::1]:22", "[::2]:22"]);
}

#[test]
fn dns_failure_classification() {
    let r = classify_dns("example.test", 22, Err(String::from("no such host")));
    match r {
        Err(SshError::DnsLookupFailed { host, port, detail }) => {
            assert_eq!(host, "example.test");
            assert_eq!(port, 22);
            assert_eq!(detail, "no such host");
        },
        _ => panic!("expected a lookup failure"),
    }
    let r = classify_dns("example.test", 22, Ok(vec![]));
    match r {
        Err(SshError::ConnectionFailed(m)) => {
            assert_eq!(m, "DNS lookup returned no addresses for example.test:22");
        },
        _ => panic!("expected a connection failure"),
    }
    let r = classify_dns("example.test", 22, Ok(vec![addr("1.1.1.1:22", false)]));
    assert_eq!(r.unwrap().len(), 1);
}

#[test]
fn join_retry_scenario() {
    // a join-aborted handshake earns one delayed retry on the same address
    // before the plan moves on
    let mut plan = ConnectPlan::new(vec![addr("1.1.1.1:22", false), addr("2.2.2.2:22", false)]);
    match plan.next_step() {
        ConnectStep::Dial { addr_index, delay_ms } => {
            assert_eq!(addr_index, 0);
            assert_eq!(delay_ms, 0);
        },
        ConnectStep::GiveUp => panic!("expected a dial"),
    }
    plan.on_tcp_outcome(TcpOutcome::Connected);
    plan.on_handshake_outcome(HandshakeOutcome::JoinAborted {
        detail: String::from("worker gone"),
        diag: None,
    });
    match plan.next_step() {
        ConnectStep::Dial { addr_index, delay_ms } => {
            assert_eq!(addr_index, 0, "retry stays on the same address");
            assert_eq!(delay_ms, 200, "retry waits 200 ms");
        },
        ConnectStep::GiveUp => panic!("expected a retry dial"),
    }
    plan.on_tcp_outcome(TcpOutcome::Connected);
    plan.on_handshake_outcome(HandshakeOutcome::JoinAborted {
        detail: String::from("worker gone again"),
        diag: None,
    });
    match plan.next_step() {
        ConnectStep::Dial { addr_index, delay_ms } => {
            assert_eq!(addr_index, 1, "second abort moves to the next address");
            assert_eq!(delay_ms, 0);
        },
        ConnectStep::GiveUp => panic!("expected the next address"),
    }
}

#[test]
fn tcp_failures_walk_the_address_list() {
    let mut plan = ConnectPlan::new(vec![addr("1.1.1.1:22", false), addr("2.2.2.2:22", false)]);
    plan.on_tcp_outcome(TcpOutcome::TimedOut);
    match plan.next_step() {
        ConnectStep::Dial { addr_index, .. } => assert_eq!(addr_index, 1),
        ConnectStep::GiveUp => panic!("expected the next address"),
    }
    plan.on_tcp_outcome(TcpOutcome::Failed(String::from("refused")));
    assert!(matches!(plan.next_step(), ConnectStep::GiveUp));
    match plan.into_failure() {
        SshError::TcpConnectFailed { addr, detail } => {
            assert_eq!(addr, "2.2.2.2:22");
            assert_eq!(detail, "refused");
        },
        _ => panic!("expected the last TCP failure"),
    }
}

#[test]
fn host_key_errors_end_the_plan() {
    let mut plan = ConnectPlan::new(vec![addr("1.1.1.1:22", false), addr("2.2.2.2:22", false)]);
    plan.on_tcp_outcome(TcpOutcome::Connected);
    plan.on_handshake_outcome(HandshakeOutcome::HostKeyRejected(SshError::HostKeyUntrusted {
        host: String::from("example.test"),
        port: 22,
        key_type: String::from("ssh-ed25519"),
        fingerprint_sha256: String::from("SHA256:AAA"),
        public_key_openssh: String::from("k"),
    }));
    assert!(matches!(plan.next_step(), ConnectStep::GiveUp));
    assert!(matches!(plan.into_failure(), SshError::HostKeyUntrusted { .. }));
}

#[test]
fn established_plan_stops_dialing() {
    let mut plan = ConnectPlan::new(vec![addr("1.1.1.1:22", false)]);
    plan.on_tcp_outcome(TcpOutcome::Connected);
    plan.on_handshake_outcome(HandshakeOutcome::Established);
    assert!(matches!(plan.next_step(), ConnectStep::GiveUp));
    assert!(plan.established);
}

#[test]
fn empty_plan_has_a_generic_failure() {
    let plan = ConnectPlan::new(vec![]);
    assert!(matches!(plan.next_step(), ConnectStep::GiveUp));
    match plan.into_failure() {
        SshError::ConnectionFailed(m) => {
            assert_eq!(m, "Failed to establish SSH connection");
        },
        _ => panic!("expected the generic failure"),
    }
}

#[test]
fn auth_classification() {
    assert!(classify_auth(AuthOutcome::Accepted).is_ok());
    match classify_auth(AuthOutcome::Rejected) {
        Err(SshError::AuthenticationFailed(m)) => assert_eq!(m, "Authentication rejected"),
        _ => panic!("expected an authentication failure"),
    }
    match classify_auth(AuthOutcome::TransportError(String::from("eof"))) {
        Err(SshError::AuthenticationFailed(m)) => assert_eq!(m, "eof"),
        _ => panic!("expected an authentication failure"),
    }
}
