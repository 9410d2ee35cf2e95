use driftcode::error::{error_message, is_fatal_connection_error, map_sftp_error, RawSftpError,
    SshError};
use driftcode::sftp::{op_timeout_ms, resolve_delete_outcome, resolve_sftp_outcome,
    sftp_should_retry, SftpOp, SFTP_RESPONSE_TIMEOUT_SECS};

#[test]
fn timeout_maps_to_its_own_class() {
    assert!(matches!(map_sftp_error(RawSftpError::Timeout), SshError::SftpTimeout));
}

#[test]
fn session_closed_detected_case_insensitively() {
    let e = map_sftp_error(RawSftpError::UnexpectedBehavior(String::from(
        "the Session CLOSED unexpectedly",
    )));
    assert!(matches!(e, SshError::SftpSessionClosed));
}

#[test]
fn other_unexpected_behavior_keeps_its_message() {
    let e = map_sftp_error(RawSftpError::UnexpectedBehavior(String::from("bad packet")));
    match e {
        SshError::SftpError(m) => assert_eq!(m, "bad packet"),
        _ => panic!("expected an SFTP error"),
    }
    let e = map_sftp_error(RawSftpError::Other(String::from("4: failure")));
    assert!(matches!(e, SshError::SftpError(_)));
}

#[test]
fn fatality_classification() {
    assert!(is_fatal_connection_error(&SshError::ConnectionFailed(String::from("x"))));
    assert!(is_fatal_connection_error(&SshError::AuthenticationFailed(String::from("x"))));
    assert!(is_fatal_connection_error(&SshError::ChannelError(String::from("x"))));
    assert!(is_fatal_connection_error(&SshError::IoError(String::from("x"))));
    assert!(is_fatal_connection_error(&SshError::TcpConnectTimeout {
        addr: String::from("1.2.3.4:22"),
    }));
    assert!(!is_fatal_connection_error(&SshError::SftpTimeout));
    assert!(!is_fatal_connection_error(&SshError::SftpSessionClosed));
    assert!(!is_fatal_connection_error(&SshError::SftpError(String::from("x"))));
}

#[test]
fn rendered_messages() {
    let e = SshError::DnsLookupFailed {
        host: String::from("example.test"),
        port: 22,
        detail: String::from("boom"),
    };
    assert_eq!(error_message(&e), "DNS lookup failed for example.test:22: boom");
    assert_eq!(error_message(&SshError::SftpTimeout), "SFTP request timed out");
    assert_eq!(error_message(&SshError::SftpSessionClosed), "SFTP session closed");
    let e = SshError::HostKeyMismatch {
        host: String::from("h"),
        port: 2022,
        key_type: String::from("ssh-ed25519"),
        expected_fingerprint_sha256: String::from("SHA256:AAA"),
        actual_fingerprint_sha256: String::from("SHA256:BBB"),
        expected_public_key_openssh: String::from("k1"),
        actual_public_key_openssh: String::from("k2"),
    };
    assert_eq!(
        error_message(&e),
        "Host key mismatch for h:2022 (expected SHA256:AAA, got SHA256:BBB)"
    );
}

#[test]
fn per_op_timeouts() {
    assert_eq!(op_timeout_ms(&SftpOp::GetHomeDir), 30_000);
    assert_eq!(op_timeout_ms(&SftpOp::ListDir), 45_000);
    assert_eq!(op_timeout_ms(&SftpOp::ReadFile), 60_000);
    assert_eq!(op_timeout_ms(&SftpOp::ReadFileWithStat), 75_000);
    assert_eq!(op_timeout_ms(&SftpOp::WriteFile), 60_000);
    assert_eq!(op_timeout_ms(&SftpOp::Stat), 30_000);
    assert_eq!(op_timeout_ms(&SftpOp::CreateFile), 30_000);
    assert_eq!(op_timeout_ms(&SftpOp::CreateDir), 30_000);
    assert_eq!(op_timeout_ms(&SftpOp::Delete), 30_000);
    assert_eq!(op_timeout_ms(&SftpOp::Rename), 30_000);
    assert_eq!(op_timeout_ms(&SftpOp::CreatePty), 20_000);
    assert_eq!(SFTP_RESPONSE_TIMEOUT_SECS, 180);
}

#[test]
fn slow_op_outcome_depends_on_the_table() {
    // an operation taking 75 s fits readFileWithStat's budget but not
    // readFile's
    let took_ms: u64 = 75_000;
    assert!(took_ms <= op_timeout_ms(&SftpOp::ReadFileWithStat));
    assert!(took_ms > op_timeout_ms(&SftpOp::ReadFile));
}

#[test]
fn transient_first_error_earns_one_retry() {
    assert!(sftp_should_retry::<String>(&Err(SshError::SftpTimeout)));
    assert!(sftp_should_retry::<String>(&Err(SshError::SftpSessionClosed)));
    assert!(!sftp_should_retry::<String>(&Err(SshError::SftpError(String::from("x")))));
    assert!(!sftp_should_retry::<String>(&Ok(String::from("fine"))));
}

#[test]
fn timeout_recycle_scenario() {
    // first attempt stalls into a timeout; the retry stalls too, and the
    // second timeout is the surfaced outcome
    let first: Result<String, SshError> = Err(SshError::SftpTimeout);
    assert!(sftp_should_retry(&first));
    let second: Result<String, SshError> = Err(SshError::SftpTimeout);
    let surfaced = resolve_sftp_outcome(first, Some(second));
    assert!(matches!(surfaced, Err(SshError::SftpTimeout)));
}

#[test]
fn retry_success_is_surfaced() {
    let first: Result<String, SshError> = Err(SshError::SftpSessionClosed);
    let second: Result<String, SshError> = Ok(String::from("contents"));
    let surfaced = resolve_sftp_outcome(first, Some(second));
    assert_eq!(surfaced.unwrap(), "contents");
}

#[test]
fn non_transient_error_is_not_retried() {
    let first: Result<String, SshError> = Err(SshError::SftpError(String::from("denied")));
    assert!(!sftp_should_retry(&first));
    let surfaced = resolve_sftp_outcome(first, None);
    match surfaced {
        Err(SshError::SftpError(m)) => assert_eq!(m, "denied"),
        _ => panic!("expected the first error"),
    }
}

#[test]
fn delete_falls_back_to_directory_removal() {
    assert!(resolve_delete_outcome(Ok(()), None).is_ok());
    let surfaced = resolve_delete_outcome(
        Err(SshError::SftpError(String::from("is a directory"))),
        Some(Ok(())),
    );
    assert!(surfaced.is_ok());
    let surfaced = resolve_delete_outcome(
        Err(SshError::SftpError(String::from("is a directory"))),
        Some(Err(SshError::SftpError(String::from("not empty")))),
    );
    match surfaced {
        Err(SshError::SftpError(m)) => assert_eq!(m, "not empty"),
        _ => panic!("expected the directory-removal error"),
    }
}
