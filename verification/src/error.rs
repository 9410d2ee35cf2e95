//! Connection-level errors, their classification, and their rendering.

use vstd::prelude::*;
use crate::transcript::HandshakeDiag;
use crate::text::{dec_chars, lower_seq, seq_contains, u16_to_string, contains_ascii_ci};

verus! {

/// Everything that can go wrong on a connection, from name resolution to
/// SFTP traffic. Addresses are carried in their textual form.
#[derive(Debug)]
#[allow(inconsistent_fields)]
pub enum SshError {
    DnsLookupFailed { host: String, port: u16, detail: String },
    TcpConnectFailed { addr: String, detail: String },
    TcpConnectTimeout { addr: String },
    HandshakeFailed { addr: String, detail: String, diag: Option<HandshakeDiag> },
    HandshakeJoinAborted { addr: String, detail: Option<String>, diag: Option<HandshakeDiag> },
    HostKeyUntrusted {
        host: String,
        port: u16,
        key_type: String,
        fingerprint_sha256: String,
        public_key_openssh: String,
    },
    HostKeyMismatch {
        host: String,
        port: u16,
        key_type: String,
        expected_fingerprint_sha256: String,
        actual_fingerprint_sha256: String,
        expected_public_key_openssh: String,
        actual_public_key_openssh: String,
    },
    ConnectionFailed(String),
    AuthenticationFailed(String),
    SftpError(String),
    SftpTimeout,
    SftpSessionClosed,
    ChannelError(String),
    IoError(String),
}

/// Fatal errors tear the connection actor down; SFTP-level troubles are
/// transient and leave it running.
pub open spec fn is_fatal_spec(e: &SshError) -> bool {
    match e {
        SshError::SftpTimeout => false,
        SshError::SftpSessionClosed => false,
        SshError::SftpError(_) => false,
        _ => true,
    }
}

/// Whether an error must terminate the connection actor.
pub fn is_fatal_connection_error(error: &SshError) -> (r: bool)
    ensures
        r == is_fatal_spec(error),
{
    match error {
        SshError::DnsLookupFailed { .. } => true,
        SshError::TcpConnectFailed { .. } => true,
        SshError::TcpConnectTimeout { .. } => true,
        SshError::HandshakeFailed { .. } => true,
        SshError::HandshakeJoinAborted { .. } => true,
        SshError::HostKeyUntrusted { .. } => true,
        SshError::HostKeyMismatch { .. } => true,
        SshError::ConnectionFailed(_) => true,
        SshError::AuthenticationFailed(_) => true,
        SshError::ChannelError(_) => true,
        SshError::SftpTimeout | SshError::SftpSessionClosed | SshError::SftpError(_) => false,
        SshError::IoError(_) => true,
    }
}

/// The transient SFTP error class: a recycle-and-retry is warranted.
pub open spec fn is_transient_sftp(e: &SshError) -> bool {
    e is SftpTimeout || e is SftpSessionClosed
}

/// An SFTP protocol error as the transport library reports it, reduced to
/// plain values: the timeout variant, the unexpected-behavior variant with
/// its message, and everything else with its rendered message.
pub enum RawSftpError {
    Timeout,
    UnexpectedBehavior(String),
    Other(String),
}

/// The session-closed detection token.
pub open spec fn session_closed_token() -> Seq<char> {
    "session closed"@
}

/// Classify a raw SFTP error: timeouts and closed sessions are transient
/// classes of their own; anything else surfaces with its message.
pub fn map_sftp_error(error: RawSftpError) -> (r: SshError)
    ensures
        match error {
            RawSftpError::Timeout => r is SftpTimeout,
            RawSftpError::UnexpectedBehavior(msg) => if seq_contains(
                lower_seq(msg@),
                lower_seq(session_closed_token()),
            ) {
                r is SftpSessionClosed
            } else {
                r matches SshError::SftpError(m) && m@ == msg@
            },
            RawSftpError::Other(msg) => r matches SshError::SftpError(m) && m@ == msg@,
        },
{
    match error {
        RawSftpError::Timeout => SshError::SftpTimeout,
        RawSftpError::UnexpectedBehavior(msg) => {
            if contains_ascii_ci(msg.as_str(), "session closed") {
                SshError::SftpSessionClosed
            } else {
                SshError::SftpError(msg)
            }
        },
        RawSftpError::Other(msg) => SshError::SftpError(msg),
    }
}

/// The rendered message of each error, used for disconnect reasons and for
/// raw detail fields handed to the UI.
pub open spec fn error_message_spec(e: &SshError) -> Seq<char> {
    match e {
        SshError::DnsLookupFailed { host, port, detail } => "DNS lookup failed for "@ + host@
            + ":"@ + dec_chars(*port as int) + ": "@ + detail@,
        SshError::TcpConnectFailed { addr, detail } => "TCP connect to "@ + addr@ + " failed: "@
            + detail@,
        SshError::TcpConnectTimeout { addr } => "TCP connect to "@ + addr@ + " timed out"@,
        SshError::HandshakeFailed { addr, detail, .. } => "SSH handshake to "@ + addr@
            + " failed: "@ + detail@,
        SshError::HandshakeJoinAborted { addr, .. } => "SSH handshake to "@ + addr@
            + " aborted (JoinError)"@,
        SshError::HostKeyUntrusted { host, port, fingerprint_sha256, .. } =>
            "Untrusted host key for "@ + host@ + ":"@ + dec_chars(*port as int) + " ("@
            + fingerprint_sha256@ + ")"@,
        SshError::HostKeyMismatch {
            host,
            port,
            expected_fingerprint_sha256,
            actual_fingerprint_sha256,
            ..
        } => "Host key mismatch for "@ + host@ + ":"@ + dec_chars(*port as int) + " (expected "@
            + expected_fingerprint_sha256@ + ", got "@ + actual_fingerprint_sha256@ + ")"@,
        SshError::ConnectionFailed(d) => "Connection failed: "@ + d@,
        SshError::AuthenticationFailed(d) => "Authentication failed: "@ + d@,
        SshError::SftpError(d) => "SFTP error: "@ + d@,
        SshError::SftpTimeout => "SFTP request timed out"@,
        SshError::SftpSessionClosed => "SFTP session closed"@,
        SshError::ChannelError(d) => "Channel error: "@ + d@,
        SshError::IoError(d) => "IO error: "@ + d@,
    }
}

/// Render an error as its message string.
pub fn error_message(e: &SshError) -> (r: String)
    ensures
        r@ == error_message_spec(e),
{
    match e {
        SshError::DnsLookupFailed { host, port, detail } => {
            let mut s = String::new();
            s.append("DNS lookup failed for ");
            s.append(host.as_str());
            s.append(":");
            let p = u16_to_string(*port);
            s.append(p.as_str());
            s.append(": ");
            s.append(detail.as_str());
            s
        },
        SshError::TcpConnectFailed { addr, detail } => {
            let mut s = String::new();
            s.append("TCP connect to ");
            s.append(addr.as_str());
            s.append(" failed: ");
            s.append(detail.as_str());
            s
        },
        SshError::TcpConnectTimeout { addr } => {
            let mut s = String::new();
            s.append("TCP connect to ");
            s.append(addr.as_str());
            s.append(" timed out");
            s
        },
        SshError::HandshakeFailed { addr, detail, .. } => {
            let mut s = String::new();
            s.append("SSH handshake to ");
            s.append(addr.as_str());
            s.append(" failed: ");
            s.append(detail.as_str());
            s
        },
        SshError::HandshakeJoinAborted { addr, .. } => {
            let mut s = String::new();
            s.append("SSH handshake to ");
            s.append(addr.as_str());
            s.append(" aborted (JoinError)");
            s
        },
        SshError::HostKeyUntrusted { host, port, fingerprint_sha256, .. } => {
            let mut s = String::new();
            s.append("Untrusted host key for ");
            s.append(host.as_str());
            s.append(":");
            let p = u16_to_string(*port);
            s.append(p.as_str());
            s.append(" (");
            s.append(fingerprint_sha256.as_str());
            s.append(")");
            s
        },
        SshError::HostKeyMismatch {
            host,
            port,
            expected_fingerprint_sha256,
            actual_fingerprint_sha256,
            ..
        } => {
            let mut s = String::new();
            s.append("Host key mismatch for ");
            s.append(host.as_str());
            s.append(":");
            let p = u16_to_string(*port);
            s.append(p.as_str());
            s.append(" (expected ");
            s.append(expected_fingerprint_sha256.as_str());
            s.append(", got ");
            s.append(actual_fingerprint_sha256.as_str());
            s.append(")");
            s
        },
        SshError::ConnectionFailed(d) => {
            let mut s = String::new();
            s.append("Connection failed: ");
            s.append(d.as_str());
            s
        },
        SshError::AuthenticationFailed(d) => {
            let mut s = String::new();
            s.append("Authentication failed: ");
            s.append(d.as_str());
            s
        },
        SshError::SftpError(d) => {
            let mut s = String::new();
            s.append("SFTP error: ");
            s.append(d.as_str());
            s
        },
        SshError::SftpTimeout => {
            let mut s = String::new();
            s.append("SFTP request timed out");
            s
        },
        SshError::SftpSessionClosed => {
            let mut s = String::new();
            s.append("SFTP session closed");
            s
        },
        SshError::ChannelError(d) => {
            let mut s = String::new();
            s.append("Channel error: ");
            s.append(d.as_str());
            s
        },
        SshError::IoError(d) => {
            let mut s = String::new();
            s.append("IO error: ");
            s.append(d.as_str());
            s
        },
    }
}

} // verus!
