//! The host-key trust store: server public keys a user chose to trust,
//! keyed by `host:port`, together with the decision rule the handshake
//! applies against them.

use vstd::prelude::*;
use crate::assoc::StrMap;
use crate::error::SshError;
use crate::text::{dec_chars, trim, trim_spec, u16_to_string};

verus! {

/// A trusted server key: its type, SHA-256 fingerprint, OpenSSH encoding,
/// and when it was trusted (milliseconds since the epoch).
pub struct KnownHostEntry {
    pub host: String,
    pub port: u16,
    pub key_type: String,
    pub fingerprint_sha256: String,
    pub public_key_openssh: String,
    pub trusted_at: u64,
}

/// Ghost image of an entry.
pub ghost struct KnownHostEntryV {
    pub host: Seq<char>,
    pub port: u16,
    pub key_type: Seq<char>,
    pub fingerprint_sha256: Seq<char>,
    pub public_key_openssh: Seq<char>,
    pub trusted_at: u64,
}

impl View for KnownHostEntry {
    type V = KnownHostEntryV;

    open spec fn view(&self) -> KnownHostEntryV {
        KnownHostEntryV {
            host: self.host@,
            port: self.port,
            key_type: self.key_type@,
            fingerprint_sha256: self.fingerprint_sha256@,
            public_key_openssh: self.public_key_openssh@,
            trusted_at: self.trusted_at,
        }
    }
}

impl KnownHostEntry {
    /// An exact copy of the entry.
    pub fn duplicate(&self) -> (r: Self)
        ensures
            r@ == self@,
    {
        KnownHostEntry {
            host: self.host.clone(),
            port: self.port,
            key_type: self.key_type.clone(),
            fingerprint_sha256: self.fingerprint_sha256.clone(),
            public_key_openssh: self.public_key_openssh.clone(),
            trusted_at: self.trusted_at,
        }
    }
}

/// The store key for a host and port: the trimmed host, a colon, and the
/// port in decimal.
pub open spec fn host_key_spec(host: Seq<char>, port: u16) -> Seq<char> {
    trim_spec(host) + ":"@ + dec_chars(port as int)
}

/// Render the store key for a host and port.
pub fn key(host: &str, port: u16) -> (r: String)
    ensures
        r@ == host_key_spec(host@, port),
{
    let mut s = trim(host);
    s.append(":");
    let p = u16_to_string(port);
    s.append(p.as_str());
    s
}

/// Relies on std::time::SystemTime::now: the current time in milliseconds
/// since the Unix epoch (zero when the clock reads before the epoch).
#[verifier::external_body]
pub fn now_ms() -> u64 {
    std::time::SystemTime::now()
        .duration_since(std::time::UNIX_EPOCH)
        .unwrap_or_default()
        .as_millis() as u64
}

/// What parsing an OpenSSH public key yields: its algorithm name and its
/// SHA-256 fingerprint, a function of the text alone; `None` when the text
/// does not parse.
pub uninterp spec fn parsed_fingerprint(s: Seq<char>) -> Option<(Seq<char>, Seq<char>)>;

/// Relies on ssh_key::PublicKey::from_openssh, PublicKey::algorithm and
/// PublicKey::fingerprint with the SHA-256 hash: whether the text parses,
/// the algorithm name, and the fingerprint all depend on the text alone.
#[verifier::external_body]
pub fn compute_fingerprint(openssh: &str) -> (r: Option<(String, String)>)
    ensures
        match r {
            Some(p) => parsed_fingerprint(openssh@) == Some((p.0@, p.1@)),
            None => parsed_fingerprint(openssh@) is None,
        },
{
    match ssh_key::PublicKey::from_openssh(openssh) {
        Ok(k) => {
            let kt = k.algorithm().as_str().to_string();
            let fp = k.fingerprint(ssh_key::HashAlg::Sha256).to_string();
            Some((kt, fp))
        },
        Err(_) => None,
    }
}

/// The in-memory image of the trust store.
pub struct KnownHostStore {
    pub entries: StrMap<KnownHostEntry>,
}

impl KnownHostStore {
    pub open spec fn wf(&self) -> bool {
        self.entries.wf()
    }

    /// An empty store.
    pub fn new() -> (r: Self)
        ensures
            r.wf(),
            r.entries.spec_len() == 0,
            forall|k: Seq<char>| !r.entries.has_key(k),
    {
        KnownHostStore { entries: StrMap::new() }
    }

    /// The trusted entry for a host and port, if any.
    pub fn get(&self, host: &str, port: u16) -> (r: Option<KnownHostEntry>)
        requires
            self.wf(),
        ensures
            match r {
                Some(e) => self.entries.has_key(host_key_spec(host@, port)) && e@
                    == self.entries.value_at(host_key_spec(host@, port))@,
                None => !self.entries.has_key(host_key_spec(host@, port)),
            },
    {
        let k = key(host, port);
        match self.entries.get_ref(k.as_str()) {
            Some(e) => Some(e.duplicate()),
            None => None,
        }
    }

    /// Trust (or re-trust) a server key: the entry is stored under
    /// `host:port` with the trimmed host and the given trust time.
    pub fn upsert(
        &mut self,
        host: &str,
        port: u16,
        key_type: &str,
        fingerprint_sha256: &str,
        public_key_openssh: &str,
        now: u64,
    )
        requires
            old(self).wf(),
        ensures
            final(self).wf(),
            final(self).entries.has_key(host_key_spec(host@, port)),
            final(self).entries.value_at(host_key_spec(host@, port))@ == (KnownHostEntryV {
                host: trim_spec(host@),
                port: port,
                key_type: key_type@,
                fingerprint_sha256: fingerprint_sha256@,
                public_key_openssh: public_key_openssh@,
                trusted_at: now,
            }),
            forall|k: Seq<char>|
                k != host_key_spec(host@, port) ==> #[trigger] final(self).entries.has_key(k)
                    == old(self).entries.has_key(k),
            forall|k: Seq<char>|
                k != host_key_spec(host@, port) && old(self).entries.has_key(k)
                    ==> #[trigger] final(self).entries.value_at(k) == old(self).entries.value_at(
                    k,
                ),
    {
        let k = key(host, port);
        let entry = KnownHostEntry {
            host: trim(host),
            port,
            key_type: key_type.to_owned(),
            fingerprint_sha256: fingerprint_sha256.to_owned(),
            public_key_openssh: public_key_openssh.to_owned(),
            trusted_at: now,
        };
        self.entries.insert(k, entry);
    }

    /// Forget the entry for a host and port, if any.
    pub fn remove(&mut self, host: &str, port: u16)
        requires
            old(self).wf(),
        ensures
            final(self).wf(),
            !final(self).entries.has_key(host_key_spec(host@, port)),
            forall|k: Seq<char>|
                k != host_key_spec(host@, port) ==> #[trigger] final(self).entries.has_key(k)
                    == old(self).entries.has_key(k),
            forall|k: Seq<char>|
                k != host_key_spec(host@, port) && old(self).entries.has_key(k)
                    ==> #[trigger] final(self).entries.value_at(k) == old(self).entries.value_at(
                    k,
                ),
    {
        let k = key(host, port);
        let _ = self.entries.remove_entry(k.as_str());
    }

    /// Every trusted entry, in storage order.
    pub fn list(&self) -> (r: Vec<KnownHostEntry>)
        requires
            self.wf(),
        ensures
            r@.len() == self.entries.spec_len(),
            forall|i: int|
                0 <= i < r@.len() ==> r@[i]@ == self.entries.entries@[i].1@,
    {
        let mut r: Vec<KnownHostEntry> = Vec::new();
        let mut i: usize = 0;
        while i < self.entries.entries.len()
            invariant
                i <= self.entries.entries@.len(),
                r@.len() == i,
                forall|j: int| 0 <= j < i ==> r@[j]@ == self.entries.entries@[j].1@,
            decreases self.entries.entries@.len() - i,
        {
            r.push(self.entries.entries[i].1.duplicate());
            i = i + 1;
        }
        r
    }

    /// Re-admit a previously persisted entry, keyed by its own host and
    /// port, with its trust time kept.
    pub fn insert_entry(&mut self, entry: KnownHostEntry)
        requires
            old(self).wf(),
        ensures
            final(self).wf(),
            final(self).entries.has_key(host_key_spec(entry.host@, entry.port)),
            final(self).entries.value_at(host_key_spec(entry.host@, entry.port)) == entry,
            forall|k: Seq<char>|
                k != host_key_spec(entry.host@, entry.port) ==> #[trigger] final(self).entries.has_key(k) == old(self).entries.has_key(k),
    {
        let k = key(entry.host.as_str(), entry.port);
        self.entries.insert(k, entry);
    }
}

/// The handshake's trust decision for a presented server key, given the
/// stored entry for its host and port: unknown hosts are untrusted, a
/// matching fingerprint is accepted, and anything else is a mismatch.
pub fn check_host_key(
    stored: Option<&KnownHostEntry>,
    host: &str,
    port: u16,
    key_type: &str,
    fingerprint: &str,
    public_key_openssh: &str,
) -> (r: Result<(), SshError>)
    ensures
        match stored {
            None => r matches Err(SshError::HostKeyUntrusted {
                host: h,
                port: p,
                key_type: kt,
                fingerprint_sha256: fp,
                public_key_openssh: pk,
            }) && h@ == host@ && p == port && kt@ == key_type@ && fp@ == fingerprint@ && pk@
                == public_key_openssh@,
            Some(e) => if e.fingerprint_sha256@ == fingerprint@ {
                r is Ok
            } else {
                r matches Err(SshError::HostKeyMismatch {
                    host: h,
                    port: p,
                    key_type: kt,
                    expected_fingerprint_sha256: efp,
                    actual_fingerprint_sha256: afp,
                    expected_public_key_openssh: epk,
                    actual_public_key_openssh: apk,
                }) && h@ == host@ && p == port && kt@ == key_type@ && efp@
                    == e.fingerprint_sha256@ && afp@ == fingerprint@ && epk@
                    == e.public_key_openssh@ && apk@ == public_key_openssh@
            },
        },
{
    match stored {
        None => Err(
            SshError::HostKeyUntrusted {
                host: host.to_owned(),
                port,
                key_type: key_type.to_owned(),
                fingerprint_sha256: fingerprint.to_owned(),
                public_key_openssh: public_key_openssh.to_owned(),
            },
        ),
        Some(entry) => {
            if crate::text::str_eq(entry.fingerprint_sha256.as_str(), fingerprint) {
                Ok(())
            } else {
                Err(
                    SshError::HostKeyMismatch {
                        host: host.to_owned(),
                        port,
                        key_type: key_type.to_owned(),
                        expected_fingerprint_sha256: entry.fingerprint_sha256.clone(),
                        actual_fingerprint_sha256: fingerprint.to_owned(),
                        expected_public_key_openssh: entry.public_key_openssh.clone(),
                        actual_public_key_openssh: public_key_openssh.to_owned(),
                    },
                )
            }
        },
    }
}

} // verus!
