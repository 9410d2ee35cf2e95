//! The command layer's pure decisions: choosing the authentication method
//! from a profile, mapping connection errors to UI errors, validating and
//! persisting trusted host keys, shaping listing results, and the rule for
//! dropping dead terminals.

use vstd::prelude::*;
use crate::auth::AuthMethod;
use crate::error::{SshError, error_message, error_message_spec};
use crate::ipc::{ContextValue, IpcError, is_ctx_str, is_ctx_uint};
use crate::known_hosts::{KnownHostStore, compute_fingerprint, host_key_spec, parsed_fingerprint};
use crate::sftp::{SftpEntry, SftpEntryV, SftpStat, entries_view};
use crate::text::{lower_seq, seq_contains, str_eq, contains_ascii_ci, opt_str_view};
use crate::transcript::HandshakeDiag;

verus! {

/// The connection profile the UI submits.
pub struct ConnectionProfile {
    pub id: String,
    pub name: String,
    pub host: String,
    pub port: u16,
    pub username: String,
    pub auth_method: String,
    pub key_path: Option<String>,
}

/// A request to trust a server key.
pub struct TrustHostKeyRequest {
    pub host: String,
    pub port: u16,
    pub key_type: String,
    pub fingerprint_sha256: String,
    pub public_key_openssh: String,
}

/// Choose the authentication method a profile asks for: `key` requires a
/// key path (the password slot carries the passphrase), `password`
/// requires a password, anything else is rejected.
pub fn auth_from_profile(profile: &ConnectionProfile, password: Option<String>) -> (r: Result<
    AuthMethod,
    IpcError,
>)
    ensures
        profile.auth_method@ == "key"@ ==> match profile.key_path {
            Some(p) => r matches Ok(AuthMethod::Key { path, passphrase }) && path@ == p@
                && passphrase == password,
            None => r matches Err(e) && e.code@ == "invalid_key_path"@,
        },
        profile.auth_method@ == "password"@ ==> match password {
            Some(p) => r matches Ok(AuthMethod::Password(q)) && q == p,
            None => r matches Err(e) && e.code@ == "missing_password"@,
        },
        profile.auth_method@ != "key"@ && profile.auth_method@ != "password"@ ==> (r matches Err(
            e,
        ) && e.code@ == "invalid_auth_method"@),
{
    proof {
        reveal_strlit("key");
        reveal_strlit("password");
        assert("key"@.len() == 3);
        assert("password"@.len() == 8);
        assert("key"@ != "password"@);
    }
    if str_eq(profile.auth_method.as_str(), "key") {
        match &profile.key_path {
            Some(p) => Ok(AuthMethod::Key { path: p.clone(), passphrase: password }),
            None => Err(
                IpcError::new("invalid_key_path", "Key path required for key authentication"),
            ),
        }
    } else if str_eq(profile.auth_method.as_str(), "password") {
        match password {
            Some(p) => Ok(AuthMethod::Password(p)),
            None => Err(
                IpcError::new(
                    "missing_password",
                    "Password required for password authentication",
                ),
            ),
        }
    } else {
        Err(IpcError::new("invalid_auth_method", "Invalid authentication method"))
    }
}

/// The profile record attached to every connection error's context.
pub open spec fn is_profile_context(v: ContextValue, p: &ConnectionProfile) -> bool {
    &&& v matches ContextValue::Object(fs)
    &&& v->Object_0@.len() == 4
    &&& v->Object_0@[0].0@ == "host"@ && is_ctx_str(v->Object_0@[0].1, p.host@)
    &&& v->Object_0@[1].0@ == "port"@ && is_ctx_uint(v->Object_0@[1].1, p.port as u64)
    &&& v->Object_0@[2].0@ == "username"@ && is_ctx_str(v->Object_0@[2].1, p.username@)
    &&& v->Object_0@[3].0@ == "authMethod"@ && is_ctx_str(v->Object_0@[3].1, p.auth_method@)
}

fn profile_context(p: &ConnectionProfile) -> (v: ContextValue)
    ensures
        is_profile_context(v, p),
{
    let mut fields: Vec<(String, ContextValue)> = Vec::new();
    fields.push((String::from_str("host"), ContextValue::Str(p.host.clone())));
    fields.push((String::from_str("port"), ContextValue::UInt(p.port as u64)));
    fields.push((String::from_str("username"), ContextValue::Str(p.username.clone())));
    fields.push((String::from_str("authMethod"), ContextValue::Str(p.auth_method.clone())));
    ContextValue::Object(fields)
}

/// The handshake-diagnostics record attached to handshake errors: the
/// attempt id, both identification banners (or nulls), and the byte
/// counters; a missing snapshot is a null.
pub open spec fn is_diag_context(v: ContextValue, d: Option<HandshakeDiag>) -> bool {
    match d {
        None => v is Null,
        Some(diag) => {
            &&& v matches ContextValue::Object(fs)
            &&& v->Object_0@.len() == 5
            &&& v->Object_0@[0].0@ == "attemptId"@ && is_ctx_str(
                v->Object_0@[0].1,
                diag.attempt_id@,
            )
            &&& v->Object_0@[1].0@ == "clientId"@ && (match opt_str_view(diag.client_id) {
                Some(s) => is_ctx_str(v->Object_0@[1].1, s),
                None => v->Object_0@[1].1 is Null,
            })
            &&& v->Object_0@[2].0@ == "serverId"@ && (match opt_str_view(diag.server_id) {
                Some(s) => is_ctx_str(v->Object_0@[2].1, s),
                None => v->Object_0@[2].1 is Null,
            })
            &&& v->Object_0@[3].0@ == "bytesWritten"@ && is_ctx_uint(
                v->Object_0@[3].1,
                diag.bytes_written,
            )
            &&& v->Object_0@[4].0@ == "bytesRead"@ && is_ctx_uint(
                v->Object_0@[4].1,
                diag.bytes_read,
            )
        },
    }
}

fn diag_context(d: &Option<HandshakeDiag>) -> (v: ContextValue)
    ensures
        is_diag_context(v, *d),
{
    match d {
        None => ContextValue::Null,
        Some(diag) => {
            let mut fields: Vec<(String, ContextValue)> = Vec::new();
            fields.push(
                (String::from_str("attemptId"), ContextValue::Str(diag.attempt_id.clone())),
            );
            let client = match &diag.client_id {
                Some(s) => ContextValue::Str(s.clone()),
                None => ContextValue::Null,
            };
            fields.push((String::from_str("clientId"), client));
            let server = match &diag.server_id {
                Some(s) => ContextValue::Str(s.clone()),
                None => ContextValue::Null,
            };
            fields.push((String::from_str("serverId"), server));
            fields.push((String::from_str("bytesWritten"), ContextValue::UInt(diag.bytes_written)));
            fields.push((String::from_str("bytesRead"), ContextValue::UInt(diag.bytes_read)));
            ContextValue::Object(fields)
        },
    }
}

/// Map a connection error to the structured error the UI receives: a
/// stable code per error kind, a human message, the raw detail, and
/// context carrying the error's material and the profile.
pub fn map_connect_error(profile: &ConnectionProfile, error: SshError) -> (r: IpcError)
    ensures
        match error {
            SshError::DnsLookupFailed { host, port, detail } => {
                &&& r.code@ == "dns_lookup_failed"@
                &&& r.raw matches Some(w) && w@ == detail@
                &&& r.context matches Some(c) && (c matches ContextValue::Object(fs)
                    && c->Object_0@.len() == 3 && c->Object_0@[0].0@ == "host"@ && is_ctx_str(
                    c->Object_0@[0].1,
                    host@,
                ) && c->Object_0@[1].0@ == "port"@ && is_ctx_uint(c->Object_0@[1].1, port as u64)
                    && c->Object_0@[2].0@ == "profile"@ && is_profile_context(
                    c->Object_0@[2].1,
                    profile,
                ))
            },
            SshError::TcpConnectFailed { addr, detail } => {
                &&& r.code@ == "tcp_connect_failed"@
                &&& r.raw matches Some(w) && w@ == detail@
                &&& r.context matches Some(c) && (c matches ContextValue::Object(fs)
                    && c->Object_0@.len() == 2 && c->Object_0@[0].0@ == "addr"@ && is_ctx_str(
                    c->Object_0@[0].1,
                    addr@,
                ) && c->Object_0@[1].0@ == "profile"@ && is_profile_context(
                    c->Object_0@[1].1,
                    profile,
                ))
            },
            SshError::TcpConnectTimeout { addr } => {
                &&& r.code@ == "tcp_connect_timeout"@
                &&& r.raw is None
                &&& r.context matches Some(c) && (c matches ContextValue::Object(fs)
                    && c->Object_0@.len() == 2 && c->Object_0@[0].0@ == "addr"@ && is_ctx_str(
                    c->Object_0@[0].1,
                    addr@,
                ) && c->Object_0@[1].0@ == "profile"@ && is_profile_context(
                    c->Object_0@[1].1,
                    profile,
                ))
            },
            SshError::HandshakeJoinAborted { addr, detail, diag } => {
                &&& r.code@ == "ssh_handshake_aborted"@
                &&& r.raw matches Some(w) && w@ == (match opt_str_view(detail) {
                    Some(m) => m,
                    None => "JoinError"@,
                })
                &&& r.context matches Some(c) && (c matches ContextValue::Object(fs)
                    && c->Object_0@.len() == 3 && c->Object_0@[0].0@ == "addr"@ && is_ctx_str(
                    c->Object_0@[0].1,
                    addr@,
                ) && c->Object_0@[1].0@ == "profile"@ && is_profile_context(
                    c->Object_0@[1].1,
                    profile,
                ) && c->Object_0@[2].0@ == "handshake"@ && is_diag_context(
                    c->Object_0@[2].1,
                    diag,
                ))
            },
            SshError::HandshakeFailed { addr, detail, diag } => {
                &&& r.code@ == "ssh_handshake_failed"@
                &&& r.raw matches Some(w) && w@ == detail@
                &&& r.context matches Some(c) && (c matches ContextValue::Object(fs)
                    && c->Object_0@.len() == 3 && c->Object_0@[0].0@ == "addr"@ && is_ctx_str(
                    c->Object_0@[0].1,
                    addr@,
                ) && c->Object_0@[1].0@ == "profile"@ && is_profile_context(
                    c->Object_0@[1].1,
                    profile,
                ) && c->Object_0@[2].0@ == "handshake"@ && is_diag_context(
                    c->Object_0@[2].1,
                    diag,
                ))
            },
            SshError::HostKeyUntrusted { host, port, key_type, fingerprint_sha256,
                public_key_openssh } => {
                &&& r.code@ == "ssh_hostkey_untrusted"@
                &&& r.raw is None
                &&& r.context matches Some(c) && (c matches ContextValue::Object(fs)
                    && c->Object_0@.len() == 6 && c->Object_0@[0].0@ == "host"@ && is_ctx_str(
                    c->Object_0@[0].1,
                    host@,
                ) && c->Object_0@[1].0@ == "port"@ && is_ctx_uint(c->Object_0@[1].1, port as u64)
                    && c->Object_0@[2].0@ == "keyType"@ && is_ctx_str(
                    c->Object_0@[2].1,
                    key_type@,
                ) && c->Object_0@[3].0@ == "fingerprintSha256"@ && is_ctx_str(
                    c->Object_0@[3].1,
                    fingerprint_sha256@,
                ) && c->Object_0@[4].0@ == "publicKeyOpenssh"@ && is_ctx_str(
                    c->Object_0@[4].1,
                    public_key_openssh@,
                ) && c->Object_0@[5].0@ == "profile"@ && is_profile_context(
                    c->Object_0@[5].1,
                    profile,
                ))
            },
            SshError::HostKeyMismatch {
                host,
                port,
                key_type,
                expected_fingerprint_sha256,
                actual_fingerprint_sha256,
                expected_public_key_openssh,
                actual_public_key_openssh,
            } => {
                &&& r.code@ == "ssh_hostkey_mismatch"@
                &&& r.raw is None
                &&& r.context matches Some(c) && (c matches ContextValue::Object(fs)
                    && c->Object_0@.len() == 8 && c->Object_0@[0].0@ == "host"@ && is_ctx_str(
                    c->Object_0@[0].1,
                    host@,
                ) && c->Object_0@[1].0@ == "port"@ && is_ctx_uint(c->Object_0@[1].1, port as u64)
                    && c->Object_0@[2].0@ == "keyType"@ && is_ctx_str(
                    c->Object_0@[2].1,
                    key_type@,
                ) && c->Object_0@[3].0@ == "expectedFingerprintSha256"@ && is_ctx_str(
                    c->Object_0@[3].1,
                    expected_fingerprint_sha256@,
                ) && c->Object_0@[4].0@ == "actualFingerprintSha256"@ && is_ctx_str(
                    c->Object_0@[4].1,
                    actual_fingerprint_sha256@,
                ) && c->Object_0@[5].0@ == "expectedPublicKeyOpenssh"@ && is_ctx_str(
                    c->Object_0@[5].1,
                    expected_public_key_openssh@,
                ) && c->Object_0@[6].0@ == "actualPublicKeyOpenssh"@ && is_ctx_str(
                    c->Object_0@[6].1,
                    actual_public_key_openssh@,
                ) && c->Object_0@[7].0@ == "profile"@ && is_profile_context(
                    c->Object_0@[7].1,
                    profile,
                ))
            },
            SshError::AuthenticationFailed(source) => {
                &&& r.code@ == "ssh_auth_failed"@
                &&& r.raw matches Some(w) && w@ == source@
                &&& r.context matches Some(c) && (c matches ContextValue::Object(fs)
                    && c->Object_0@.len() == 1 && c->Object_0@[0].0@ == "profile"@
                    && is_profile_context(c->Object_0@[0].1, profile))
            },
            _ => {
                &&& r.code@ == "ssh_connect_failed"@
                &&& r.raw matches Some(w) && w@ == error_message_spec(&error)
                &&& r.context matches Some(c) && (c matches ContextValue::Object(fs)
                    && c->Object_0@.len() == 1 && c->Object_0@[0].0@ == "profile"@
                    && is_profile_context(c->Object_0@[0].1, profile))
            },
        },
{
    match error {
        SshError::DnsLookupFailed { host, port, detail } => {
            let mut fields: Vec<(String, ContextValue)> = Vec::new();
            fields.push((String::from_str("host"), ContextValue::Str(host)));
            fields.push((String::from_str("port"), ContextValue::UInt(port as u64)));
            fields.push((String::from_str("profile"), profile_context(profile)));
            IpcError::new(
                "dns_lookup_failed",
                "DNS lookup failed. Check the hostname and network connectivity.",
            ).with_raw(detail).with_context(ContextValue::Object(fields))
        },
        SshError::TcpConnectFailed { addr, detail } => {
            let mut fields: Vec<(String, ContextValue)> = Vec::new();
            fields.push((String::from_str("addr"), ContextValue::Str(addr)));
            fields.push((String::from_str("profile"), profile_context(profile)));
            IpcError::new(
                "tcp_connect_failed",
                "TCP connection failed. Check the address, port, and firewall rules.",
            ).with_raw(detail).with_context(ContextValue::Object(fields))
        },
        SshError::TcpConnectTimeout { addr } => {
            let mut fields: Vec<(String, ContextValue)> = Vec::new();
            fields.push((String::from_str("addr"), ContextValue::Str(addr)));
            fields.push((String::from_str("profile"), profile_context(profile)));
            IpcError::new(
                "tcp_connect_timeout",
                "TCP connection timed out. This is often caused by a blocked port or unstable network.",
            ).with_context(ContextValue::Object(fields))
        },
        SshError::HandshakeJoinAborted { addr, detail, diag } => {
            let raw = match &detail {
                Some(m) => m.clone(),
                None => String::from_str("JoinError"),
            };
            let mut fields: Vec<(String, ContextValue)> = Vec::new();
            fields.push((String::from_str("addr"), ContextValue::Str(addr)));
            fields.push((String::from_str("profile"), profile_context(profile)));
            fields.push((String::from_str("handshake"), diag_context(&diag)));
            IpcError::new(
                "ssh_handshake_aborted",
                "SSH handshake aborted (JoinError). This often indicates a network drop or the server closing the connection early.",
            ).with_raw(raw).with_context(ContextValue::Object(fields))
        },
        SshError::HandshakeFailed { addr, detail, diag } => {
            let mut fields: Vec<(String, ContextValue)> = Vec::new();
            fields.push((String::from_str("addr"), ContextValue::Str(addr)));
            fields.push((String::from_str("profile"), profile_context(profile)));
            fields.push((String::from_str("handshake"), diag_context(&diag)));
            IpcError::new(
                "ssh_handshake_failed",
                "SSH handshake failed. Verify server compatibility and network stability.",
            ).with_raw(detail).with_context(ContextValue::Object(fields))
        },
        SshError::HostKeyUntrusted { host, port, key_type, fingerprint_sha256,
            public_key_openssh } => {
            let mut fields: Vec<(String, ContextValue)> = Vec::new();
            fields.push((String::from_str("host"), ContextValue::Str(host)));
            fields.push((String::from_str("port"), ContextValue::UInt(port as u64)));
            fields.push((String::from_str("keyType"), ContextValue::Str(key_type)));
            fields.push(
                (String::from_str("fingerprintSha256"), ContextValue::Str(fingerprint_sha256)),
            );
            fields.push(
                (String::from_str("publicKeyOpenssh"), ContextValue::Str(public_key_openssh)),
            );
            fields.push((String::from_str("profile"), profile_context(profile)));
            IpcError::new(
                "ssh_hostkey_untrusted",
                "The server's host key is not trusted yet.",
            ).with_context(ContextValue::Object(fields))
        },
        SshError::HostKeyMismatch {
            host,
            port,
            key_type,
            expected_fingerprint_sha256,
            actual_fingerprint_sha256,
            expected_public_key_openssh,
            actual_public_key_openssh,
        } => {
            let mut fields: Vec<(String, ContextValue)> = Vec::new();
            fields.push((String::from_str("host"), ContextValue::Str(host)));
            fields.push((String::from_str("port"), ContextValue::UInt(port as u64)));
            fields.push((String::from_str("keyType"), ContextValue::Str(key_type)));
            fields.push(
                (
                    String::from_str("expectedFingerprintSha256"),
                    ContextValue::Str(expected_fingerprint_sha256),
                ),
            );
            fields.push(
                (
                    String::from_str("actualFingerprintSha256"),
                    ContextValue::Str(actual_fingerprint_sha256),
                ),
            );
            fields.push(
                (
                    String::from_str("expectedPublicKeyOpenssh"),
                    ContextValue::Str(expected_public_key_openssh),
                ),
            );
            fields.push(
                (
                    String::from_str("actualPublicKeyOpenssh"),
                    ContextValue::Str(actual_public_key_openssh),
                ),
            );
            fields.push((String::from_str("profile"), profile_context(profile)));
            IpcError::new(
                "ssh_hostkey_mismatch",
                "The server's host key has changed (possible MITM).",
            ).with_context(ContextValue::Object(fields))
        },
        SshError::AuthenticationFailed(source) => {
            let mut fields: Vec<(String, ContextValue)> = Vec::new();
            fields.push((String::from_str("profile"), profile_context(profile)));
            IpcError::new(
                "ssh_auth_failed",
                "SSH authentication failed. Verify username and credentials.",
            ).with_raw(source).with_context(ContextValue::Object(fields))
        },
        other => {
            let raw = error_message(&other);
            let mut fields: Vec<(String, ContextValue)> = Vec::new();
            fields.push((String::from_str("profile"), profile_context(profile)));
            IpcError::new("ssh_connect_failed", "SSH connection failed").with_raw(
                raw,
            ).with_context(ContextValue::Object(fields))
        },
    }
}

/// Validate a trust request: the public key must parse and its computed
/// SHA-256 fingerprint must equal the provided one.
pub fn validate_trust_request(request: &TrustHostKeyRequest) -> (r: Result<(), IpcError>)
    ensures
        match parsed_fingerprint(request.public_key_openssh@) {
            None => r matches Err(e) && e.code@ == "invalid_public_key"@,
            Some(p) => if p.1 == request.fingerprint_sha256@ {
                r is Ok
            } else {
                r matches Err(e) && e.code@ == "hostkey_fingerprint_mismatch"@
            },
        },
{
    match compute_fingerprint(request.public_key_openssh.as_str()) {
        None => Err(IpcError::new("invalid_public_key", "Invalid public key format")),
        Some(computed) => {
            if str_eq(computed.1.as_str(), request.fingerprint_sha256.as_str()) {
                Ok(())
            } else {
                let mut fields: Vec<(String, ContextValue)> = Vec::new();
                fields.push((String::from_str("computed"), ContextValue::Str(computed.1)));
                fields.push(
                    (
                        String::from_str("provided"),
                        ContextValue::Str(request.fingerprint_sha256.clone()),
                    ),
                );
                fields.push((String::from_str("host"), ContextValue::Str(request.host.clone())));
                fields.push((String::from_str("port"), ContextValue::UInt(request.port as u64)));
                Err(
                    IpcError::new(
                        "hostkey_fingerprint_mismatch",
                        "Fingerprint does not match provided public key",
                    ).with_context(ContextValue::Object(fields)),
                )
            }
        },
    }
}

/// Trust a server key: the request is validated, then the entry is stored
/// under its host and port. On success the stored fingerprint is the
/// provided one, which equals the SHA-256 fingerprint computed from the
/// stored public key.
pub fn trust_host_key(store: &mut KnownHostStore, request: &TrustHostKeyRequest, now: u64) -> (r:
    Result<(), IpcError>)
    requires
        old(store).wf(),
    ensures
        final(store).wf(),
        (r is Ok) == (parsed_fingerprint(request.public_key_openssh@) matches Some(p) && p.1
            == request.fingerprint_sha256@),
        r is Ok ==> {
            &&& final(store).entries.has_key(host_key_spec(request.host@, request.port))
            &&& final(store).entries.value_at(
                host_key_spec(request.host@, request.port),
            ).fingerprint_sha256@ == request.fingerprint_sha256@
            &&& final(store).entries.value_at(
                host_key_spec(request.host@, request.port),
            ).public_key_openssh@ == request.public_key_openssh@
            &&& final(store).entries.value_at(
                host_key_spec(request.host@, request.port),
            ).key_type@ == request.key_type@
            &&& final(store).entries.value_at(
                host_key_spec(request.host@, request.port),
            ).trusted_at == now
            &&& parsed_fingerprint(
                final(store).entries.value_at(
                    host_key_spec(request.host@, request.port),
                ).public_key_openssh@,
            ) matches Some(p) && p.1 == final(store).entries.value_at(
                host_key_spec(request.host@, request.port),
            ).fingerprint_sha256@
        },
        r is Err ==> *final(store) == *old(store),
        r matches Err(e) ==> (e.code@ == "invalid_public_key"@ || e.code@
            == "hostkey_fingerprint_mismatch"@),
{
    match validate_trust_request(request) {
        Ok(()) => {
            store.upsert(
                request.host.as_str(),
                request.port,
                request.key_type.as_str(),
                request.fingerprint_sha256.as_str(),
                request.public_key_openssh.as_str(),
                now,
            );
            Ok(())
        },
        Err(e) => Err(e),
    }
}

/// A directory entry as handed to the UI: the entry, with its full path.
pub struct FileEntry {
    pub name: String,
    pub path: String,
    pub is_directory: bool,
    pub size: u64,
    pub mtime: i64,
    pub permissions: Option<String>,
}

/// Ghost image of a UI directory entry.
pub ghost struct FileEntryV {
    pub name: Seq<char>,
    pub path: Seq<char>,
    pub is_directory: bool,
    pub size: u64,
    pub mtime: i64,
    pub permissions: Option<Seq<char>>,
}

impl View for FileEntry {
    type V = FileEntryV;

    open spec fn view(&self) -> FileEntryV {
        FileEntryV {
            name: self.name@,
            path: self.path@,
            is_directory: self.is_directory,
            size: self.size,
            mtime: self.mtime,
            permissions: opt_str_view(self.permissions),
        }
    }
}

/// File metadata as handed to the UI.
pub struct FileMeta {
    pub path: String,
    pub size: u64,
    pub mtime: i64,
}

/// A file read together with its metadata, in one answer.
pub struct FileReadResult {
    pub path: String,
    pub content: String,
    pub size: u64,
    pub mtime: i64,
}

/// A directory path joined with an entry name.
pub open spec fn joined_path(dir: Seq<char>, name: Seq<char>) -> Seq<char> {
    if dir.len() > 0 && dir.last() == '/' {
        dir + name
    } else {
        dir + "/"@ + name
    }
}

/// The UI entry built from one wire entry.
pub open spec fn file_entry_of(dir: Seq<char>, e: SftpEntryV) -> FileEntryV {
    FileEntryV {
        name: e.name,
        path: joined_path(dir, e.name),
        is_directory: e.is_directory,
        size: e.size,
        mtime: e.mtime,
        permissions: e.permissions,
    }
}

/// The listing handed to the UI: dot entries dropped, each entry joined
/// with the directory path, order kept.
pub open spec fn file_entries_spec(dir: Seq<char>, s: Seq<SftpEntryV>) -> Seq<FileEntryV>
    decreases s.len(),
{
    if s.len() == 0 {
        Seq::empty()
    } else {
        file_entries_spec(dir, s.drop_last()) + (if s.last().name == "."@ || s.last().name
            == ".."@ {
            Seq::empty()
        } else {
            seq![file_entry_of(dir, s.last())]
        })
    }
}

pub open spec fn file_entries_view(v: Seq<FileEntry>) -> Seq<FileEntryV> {
    v.map_values(|e: FileEntry| e@)
}

/// Shape a listing for the UI: drop `.` and `..`, attach full paths.
pub fn to_file_entries(path: &str, entries: Vec<SftpEntry>) -> (r: Vec<FileEntry>)
    ensures
        file_entries_view(r@) == file_entries_spec(path@, entries_view(entries@)),
{
    let ghost evs = entries_view(entries@);
    let mut r: Vec<FileEntry> = Vec::new();
    let n = entries.len();
    let mut i: usize = 0;
    while i < n
        invariant
            i <= n,
            n == entries@.len(),
            evs == entries_view(entries@),
            evs.len() == n,
            file_entries_view(r@) =~~= file_entries_spec(path@, evs.subrange(0, i as int)),
        decreases n - i,
    {
        let e = &entries[i];
        proof {
            assert(evs[i as int] == e@);
            let pre = evs.subrange(0, i as int);
            let cur = evs.subrange(0, i + 1);
            assert(cur.drop_last() =~= pre);
            assert(cur.last() == evs[i as int]);
        }
        let dot = e.name.as_str().unicode_len() == 1 && e.name.as_str().get_char(0) == '.';
        let dotdot = e.name.as_str().unicode_len() == 2 && e.name.as_str().get_char(0) == '.'
            && e.name.as_str().get_char(1) == '.';
        proof {
            reveal_strlit(".");
            reveal_strlit("..");
            assert(dot == (e.name@ =~= "."@));
            assert(dotdot == (e.name@ =~= ".."@));
        }
        if !dot && !dotdot {
            let pn = path.unicode_len();
            let mut full = path.to_owned();
            if pn == 0 || path.get_char(pn - 1) != '/' {
                crate::text::push_char(&mut full, '/');
            }
            full.append(e.name.as_str());
            proof {
                reveal_strlit("/");
                assert("/"@ =~= seq!['/']);
                assert(full@ =~= joined_path(path@, e.name@));
            }
            let fe = FileEntry {
                name: e.name.clone(),
                path: full,
                is_directory: e.is_directory,
                size: e.size,
                mtime: e.mtime,
                permissions: crate::text::clone_opt_string(&e.permissions),
            };
            r.push(fe);
            proof {
                assert(r@.last()@ == file_entry_of(path@, evs[i as int]));
                assert(file_entries_view(r@) =~~= file_entries_view(r@.drop_last()).push(
                    r@.last()@,
                ));
                assert(file_entries_view(r@) =~~= file_entries_spec(
                    path@,
                    evs.subrange(0, i + 1),
                ));
            }
        } else {
            proof {
                assert(file_entries_view(r@) =~~= file_entries_spec(
                    path@,
                    evs.subrange(0, i + 1),
                ));
            }
        }
        i = i + 1;
    }
    proof {
        assert(evs.subrange(0, n as int) =~= evs);
    }
    r
}

/// The metadata record for a path.
pub fn file_meta(path: String, stat: &SftpStat) -> (r: FileMeta)
    ensures
        r.path == path,
        r.size == stat.size,
        r.mtime == stat.mtime,
{
    FileMeta { path, size: stat.size, mtime: stat.mtime }
}

/// The combined read answer for a path.
pub fn file_read_result(path: String, content: String, stat: &SftpStat) -> (r: FileReadResult)
    ensures
        r.path == path,
        r.content == content,
        r.size == stat.size,
        r.mtime == stat.mtime,
{
    FileReadResult { path, content, size: stat.size, mtime: stat.mtime }
}

/// Whether a failed terminal write means the pump is gone and the terminal
/// should be dropped from the registry: the channel-closed wording is
/// present in the error.
pub fn should_drop_terminal(raw_error: &str) -> (b: bool)
    ensures
        b == seq_contains(lower_seq(raw_error@), lower_seq("channel closed"@)),
{
    contains_ascii_ci(raw_error, "channel closed")
}

} // verus!
