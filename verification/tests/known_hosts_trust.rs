use driftcode::commands::{trust_host_key, validate_trust_request, TrustHostKeyRequest};
use driftcode::error::SshError;
use driftcode::known_hosts::{check_host_key, compute_fingerprint, key, KnownHostEntry,
    KnownHostStore};

const PUB_KEY: &str =
    "ssh-ed25519 AAAAC3NzaC1lZDI1NTE5AAAAIOfxYqEL7FWa/qGV5NzoS2lWjV0ssJY+tEbAaF4rF/Lw test@example";
const PUB_FP: &str = "SHA256:bxKh1kEhwBGgos+FJ1xe3I0LijVxVf5aLDsW96n3hq0";

fn request() -> TrustHostKeyRequest {
    TrustHostKeyRequest {
        host: String::from("example.test"),
        port: 22,
        key_type: String::from("ssh-ed25519"),
        fingerprint_sha256: String::from(PUB_FP),
        public_key_openssh: String::from(PUB_KEY),
    }
}

#[test]
fn store_key_is_trimmed_host_and_port() {
    assert_eq!(key(" example.test ", 22), "example.test:22");
    assert_eq!(key("::1", 2222), "::1:2222");
}

#[test]
fn fingerprint_computed_from_key_text() {
    let (kt, fp) = compute_fingerprint(PUB_KEY).expect("parses");
    assert_eq!(kt, "ssh-ed25519");
    assert_eq!(fp, PUB_FP);
    assert!(compute_fingerprint("not a key").is_none());
}

#[test]
fn upsert_get_roundtrip() {
    let mut store = KnownHostStore::new();
    store.upsert(" example.test", 22, "ssh-ed25519", PUB_FP, PUB_KEY, 1_234);
    let e = store.get("example.test", 22).expect("present");
    assert_eq!(e.host, "example.test");
    assert_eq!(e.port, 22);
    assert_eq!(e.key_type, "ssh-ed25519");
    assert_eq!(e.fingerprint_sha256, PUB_FP);
    assert_eq!(e.public_key_openssh, PUB_KEY);
    assert_eq!(e.trusted_at, 1_234);
}

#[test]
fn upsert_remove_get_is_none() {
    let mut store = KnownHostStore::new();
    store.upsert("example.test", 22, "ssh-ed25519", PUB_FP, PUB_KEY, 1);
    store.remove("example.test", 22);
    assert!(store.get("example.test", 22).is_none());
}

#[test]
fn upsert_replaces_and_list_reflects() {
    let mut store = KnownHostStore::new();
    store.upsert("a.test", 22, "ssh-ed25519", "SHA256:AAA", PUB_KEY, 1);
    store.upsert("b.test", 22, "ssh-ed25519", "SHA256:BBB", PUB_KEY, 2);
    store.upsert("a.test", 22, "ssh-ed25519", "SHA256:CCC", PUB_KEY, 3);
    let listed = store.list();
    assert_eq!(listed.len(), 2);
    let a = store.get("a.test", 22).expect("present");
    assert_eq!(a.fingerprint_sha256, "SHA256:CCC");
    assert_eq!(a.trusted_at, 3);
}

#[test]
fn fresh_trust_scenario() {
    // first contact: untrusted; trusting the same material succeeds; the
    // next check passes without a prompt
    let mut store = KnownHostStore::new();
    let stored = store.get("example.test", 22);
    let verdict = check_host_key(stored.as_ref(), "example.test", 22, "ssh-ed25519", PUB_FP,
        PUB_KEY);
    match verdict {
        Err(SshError::HostKeyUntrusted { host, port, key_type, fingerprint_sha256,
            public_key_openssh }) => {
            assert_eq!(host, "example.test");
            assert_eq!(port, 22);
            assert_eq!(key_type, "ssh-ed25519");
            assert_eq!(fingerprint_sha256, PUB_FP);
            assert_eq!(public_key_openssh, PUB_KEY);
        },
        _ => panic!("expected an untrusted host key"),
    }
    trust_host_key(&mut store, &request(), 99).expect("trust succeeds");
    let stored = store.get("example.test", 22);
    let verdict = check_host_key(stored.as_ref(), "example.test", 22, "ssh-ed25519", PUB_FP,
        PUB_KEY);
    assert!(verdict.is_ok());
}

#[test]
fn key_rotation_scenario() {
    let mut store = KnownHostStore::new();
    store.upsert("example.test", 22, "ssh-ed25519", "SHA256:AAA", PUB_KEY, 1);
    let stored = store.get("example.test", 22);
    let verdict = check_host_key(stored.as_ref(), "example.test", 22, "ssh-ed25519",
        "SHA256:BBB", PUB_KEY);
    match verdict {
        Err(SshError::HostKeyMismatch { expected_fingerprint_sha256,
            actual_fingerprint_sha256, .. }) => {
            assert_eq!(expected_fingerprint_sha256, "SHA256:AAA");
            assert_eq!(actual_fingerprint_sha256, "SHA256:BBB");
        },
        _ => panic!("expected a host key mismatch"),
    }
}

#[test]
fn trust_rejects_bad_key_text() {
    let mut req = request();
    req.public_key_openssh = String::from("garbage");
    let err = validate_trust_request(&req).expect_err("must fail");
    assert_eq!(err.code, "invalid_public_key");
}

#[test]
fn trust_rejects_wrong_fingerprint() {
    let mut store = KnownHostStore::new();
    let mut req = request();
    req.fingerprint_sha256 = String::from("SHA256:wrong");
    let err = trust_host_key(&mut store, &req, 5).expect_err("must fail");
    assert_eq!(err.code, "hostkey_fingerprint_mismatch");
    assert!(store.get("example.test", 22).is_none());
}

#[test]
fn trusted_entry_fingerprint_matches_its_key() {
    // the stored fingerprint always equals the fingerprint computed from
    // the stored public key text
    let mut store = KnownHostStore::new();
    trust_host_key(&mut store, &request(), 7).expect("trust succeeds");
    let e: KnownHostEntry = store.get("example.test", 22).expect("present");
    let (_, computed) = compute_fingerprint(&e.public_key_openssh).expect("parses");
    assert_eq!(computed, e.fingerprint_sha256);
}
