use driftcode::auth::{classify_parse_failure, expand_tilde, load_key_from_content, AuthError,
    AuthMethod};
use driftcode::commands::{auth_from_profile, file_meta, file_read_result, map_connect_error,
    should_drop_terminal, to_file_entries, ConnectionProfile};
use driftcode::credentials::{classify_retrieve_error, passphrase_key, CredentialError};
use driftcode::error::SshError;
use driftcode::ipc::{ContextValue, IpcError};
use driftcode::runtime::JoinError;
use driftcode::sftp::{SftpEntry, SftpStat};

fn profile() -> ConnectionProfile {
    ConnectionProfile {
        id: String::from("p1"),
        name: String::from("dev box"),
        host: String::from("example.test"),
        port: 22,
        username: String::from("alice"),
        auth_method: String::from("password"),
        key_path: None,
    }
}

#[test]
fn password_accessor() {
    let m = AuthMethod::Password(String::from("hunter2"));
    assert_eq!(m.password(), Some("hunter2"));
    let k = AuthMethod::Key { path: String::from("~/.ssh/id"), passphrase: None };
    assert!(k.password().is_none());
}

#[test]
fn tilde_expansion() {
    assert_eq!(
        expand_tilde("~/.ssh/id_ed25519", Some(&String::from("/home/alice"))),
        "/home/alice/.ssh/id_ed25519"
    );
    assert_eq!(
        expand_tilde("~/.ssh/id", Some(&String::from("/home/alice/"))),
        "/home/alice/.ssh/id"
    );
    assert_eq!(expand_tilde("~/.ssh/id", None), "~/.ssh/id");
    assert_eq!(expand_tilde("/abs/path", Some(&String::from("/home/alice"))), "/abs/path");
}

#[test]
fn parse_failure_wording_decides() {
    assert!(matches!(
        classify_parse_failure(String::from("key is encrypted")),
        AuthError::PassphraseRequired
    ));
    assert!(matches!(
        classify_parse_failure(String::from("needs a passphrase")),
        AuthError::PassphraseRequired
    ));
    match classify_parse_failure(String::from("bad base64")) {
        AuthError::KeyParse(m) => assert_eq!(m, "bad base64"),
        _ => panic!("expected a parse error"),
    }
}

fn sample_private_key_text() -> String {
    // a fixed seed with its matching public half, encoded by the key
    // library itself so the text is a faithful OpenSSH private key file
    let mut pair = [0u8; 64];
    for (i, b) in pair.iter_mut().take(32).enumerate() {
        *b = (33 + i) as u8;
    }
    let public: [u8; 32] = [
        0xe7, 0xf1, 0x62, 0xa1, 0x0b, 0xec, 0x55, 0x9a, 0xfe, 0xa1, 0x95, 0xe4, 0xdc, 0xe8,
        0x4b, 0x69, 0x56, 0x8d, 0x5d, 0x2c, 0xb0, 0x96, 0x3e, 0xb4, 0x46, 0xc0, 0x68, 0x5e,
        0x2b, 0x17, 0xf2, 0xf0,
    ];
    pair[32..].copy_from_slice(&public);
    let keypair = ssh_key::private::Ed25519Keypair::from_bytes(&pair).expect("a valid pair");
    let key = ssh_key::PrivateKey::new(
        ssh_key::private::KeypairData::Ed25519(keypair),
        "test@example",
    )
    .expect("an unencrypted key");
    key.to_openssh(ssh_key::LineEnding::LF).expect("encodes").to_string()
}

#[test]
fn key_loads_from_valid_text() {
    let pem = sample_private_key_text();
    assert!(load_key_from_content(&pem, None).is_ok());
}

#[test]
fn garbage_key_text_fails() {
    assert!(load_key_from_content("not a key", None).is_err());
    match load_key_from_content("not a key", Some(&String::from("pw"))) {
        Err(AuthError::KeyParse(m)) => assert_eq!(m, "Failed to parse key"),
        _ => panic!("expected the fixed parse error"),
    }
}

#[test]
fn auth_method_selection() {
    let mut p = profile();
    let r = auth_from_profile(&p, Some(String::from("pw"))).unwrap();
    assert!(matches!(r, AuthMethod::Password(_)));
    let e = auth_from_profile(&p, None).unwrap_err();
    assert_eq!(e.code, "missing_password");

    p.auth_method = String::from("key");
    let e = auth_from_profile(&p, None).unwrap_err();
    assert_eq!(e.code, "invalid_key_path");
    p.key_path = Some(String::from("~/.ssh/id"));
    match auth_from_profile(&p, Some(String::from("phrase"))).unwrap() {
        AuthMethod::Key { path, passphrase } => {
            assert_eq!(path, "~/.ssh/id");
            assert_eq!(passphrase.as_deref(), Some("phrase"));
        },
        _ => panic!("expected key auth"),
    }

    p.auth_method = String::from("agent");
    let e = auth_from_profile(&p, None).unwrap_err();
    assert_eq!(e.code, "invalid_auth_method");
}

fn ctx_fields(e: &IpcError) -> &Vec<(String, ContextValue)> {
    match e.context.as_ref().expect("context present") {
        ContextValue::Object(fs) => fs,
        _ => panic!("expected an object context"),
    }
}

#[test]
fn untrusted_error_carries_key_material() {
    let e = map_connect_error(
        &profile(),
        SshError::HostKeyUntrusted {
            host: String::from("example.test"),
            port: 22,
            key_type: String::from("ssh-ed25519"),
            fingerprint_sha256: String::from("SHA256:AAA"),
            public_key_openssh: String::from("ssh-ed25519 AAAA test"),
        },
    );
    assert_eq!(e.code, "ssh_hostkey_untrusted");
    let fs = ctx_fields(&e);
    assert_eq!(fs[3].0, "fingerprintSha256");
    match &fs[3].1 {
        ContextValue::Str(s) => assert_eq!(s, "SHA256:AAA"),
        _ => panic!("expected a string"),
    }
    assert_eq!(fs[4].0, "publicKeyOpenssh");
}

#[test]
fn mismatch_error_carries_both_fingerprints() {
    let e = map_connect_error(
        &profile(),
        SshError::HostKeyMismatch {
            host: String::from("example.test"),
            port: 22,
            key_type: String::from("ssh-ed25519"),
            expected_fingerprint_sha256: String::from("SHA256:AAA"),
            actual_fingerprint_sha256: String::from("SHA256:BBB"),
            expected_public_key_openssh: String::from("k1"),
            actual_public_key_openssh: String::from("k2"),
        },
    );
    assert_eq!(e.code, "ssh_hostkey_mismatch");
    let fs = ctx_fields(&e);
    assert_eq!(fs[3].0, "expectedFingerprintSha256");
    assert_eq!(fs[4].0, "actualFingerprintSha256");
    match (&fs[3].1, &fs[4].1) {
        (ContextValue::Str(a), ContextValue::Str(b)) => {
            assert_eq!(a, "SHA256:AAA");
            assert_eq!(b, "SHA256:BBB");
        },
        _ => panic!("expected strings"),
    }
}

#[test]
fn connect_error_codes() {
    let e = map_connect_error(
        &profile(),
        SshError::DnsLookupFailed {
            host: String::from("example.test"),
            port: 22,
            detail: String::from("boom"),
        },
    );
    assert_eq!(e.code, "dns_lookup_failed");
    assert_eq!(e.raw.as_deref(), Some("boom"));
    let e = map_connect_error(
        &profile(),
        SshError::TcpConnectTimeout { addr: String::from("1.2.3.4:22") },
    );
    assert_eq!(e.code, "tcp_connect_timeout");
    let e = map_connect_error(
        &profile(),
        SshError::AuthenticationFailed(String::from("Authentication rejected")),
    );
    assert_eq!(e.code, "ssh_auth_failed");
    let e = map_connect_error(&profile(), SshError::SftpTimeout);
    assert_eq!(e.code, "ssh_connect_failed");
    assert_eq!(e.raw.as_deref(), Some("SFTP request timed out"));
}

#[test]
fn listing_drops_dot_entries_and_joins_paths() {
    let entries = vec![
        SftpEntry {
            name: String::from("."),
            is_directory: true,
            size: 0,
            mtime: 0,
            permissions: None,
        },
        SftpEntry {
            name: String::from(".."),
            is_directory: true,
            size: 0,
            mtime: 0,
            permissions: None,
        },
        SftpEntry {
            name: String::from("x.txt"),
            is_directory: false,
            size: 5,
            mtime: 99,
            permissions: Some(String::from("644")),
        },
    ];
    let r = to_file_entries("/home/alice", entries);
    assert_eq!(r.len(), 1);
    assert_eq!(r[0].name, "x.txt");
    assert_eq!(r[0].path, "/home/alice/x.txt");
    assert_eq!(r[0].size, 5);
    assert_eq!(r[0].permissions.as_deref(), Some("644"));

    let entries = vec![SftpEntry {
        name: String::from("y"),
        is_directory: true,
        size: 0,
        mtime: 0,
        permissions: None,
    }];
    let r = to_file_entries("/home/alice/", entries);
    assert_eq!(r[0].path, "/home/alice/y");
}

#[test]
fn meta_and_read_results() {
    let stat = SftpStat { size: 2, mtime: 44 };
    let m = file_meta(String::from("/p"), &stat);
    assert_eq!((m.path.as_str(), m.size, m.mtime), ("/p", 2, 44));
    let r = file_read_result(String::from("/p"), String::from("hi"), &stat);
    assert_eq!((r.path.as_str(), r.content.as_str(), r.size, r.mtime), ("/p", "hi", 2, 44));
}

#[test]
fn dead_pump_wording_drops_terminal() {
    assert!(should_drop_terminal("send failed: Channel Closed"));
    assert!(!should_drop_terminal("temporary congestion"));
}

#[test]
fn credential_helpers() {
    assert_eq!(passphrase_key("/home/alice/.ssh/id"), "key:/home/alice/.ssh/id");
    assert!(matches!(
        classify_retrieve_error(String::from("No matching entry found in secure storage")),
        CredentialError::NotFound
    ));
    match classify_retrieve_error(String::from("store locked")) {
        CredentialError::RetrieveFailed(m) => assert_eq!(m, "store locked"),
        _ => panic!("expected a retrieve failure"),
    }
}

#[test]
fn join_error_classification() {
    assert!(JoinError::Cancelled.is_cancelled());
    assert!(!JoinError::Cancelled.is_panic());
    assert!(JoinError::Panic(String::from("boom")).is_panic());
    assert!(!JoinError::Other(String::from("x")).is_cancelled());
}
