//! Authentication material: the method chosen for a connection, loading an
//! OpenSSH private key from its text, and the classification of parse and
//! decrypt failures.

use vstd::prelude::*;
use crate::text::{has_prefix, seq_contains, contains_str, starts_with_str};

verus! {

/// Why authentication material could not be prepared.
#[derive(Debug)]
pub enum AuthError {
    KeyFileRead(String),
    KeyParse(String),
    PassphraseRequired,
    InvalidPassphrase,
}

/// How a connection authenticates: a password, or a private-key file with
/// an optional passphrase.
#[derive(Debug)]
pub enum AuthMethod {
    Password(String),
    Key { path: String, passphrase: Option<String> },
}

impl AuthMethod {
    /// The password, for password authentication.
    pub fn password(&self) -> (r: Option<&str>)
        ensures
            match self {
                AuthMethod::Password(p) => r matches Some(s) && s@ == p@,
                AuthMethod::Key { .. } => r is None,
            },
    {
        match self {
            AuthMethod::Password(pass) => Some(pass.as_str()),
            AuthMethod::Key { .. } => None,
        }
    }
}

/// A home directory joined with a path fragment: a separator is inserted
/// unless the home already ends with one.
pub open spec fn home_joined(home: Seq<char>, rest: Seq<char>) -> Seq<char> {
    if home.len() > 0 && home.last() == '/' {
        home + rest
    } else {
        home + "/"@ + rest
    }
}

/// A key path after tilde expansion: a leading `~/` is replaced by the home
/// directory when one is known.
pub open spec fn expand_tilde_spec(path: Seq<char>, home: Option<Seq<char>>) -> Seq<char> {
    if has_prefix(path, "~/"@) && home is Some {
        home_joined(home->Some_0, path.subrange(2, path.len() as int))
    } else {
        path
    }
}

/// Expand a leading `~/` in a key path to the home directory.
pub fn expand_tilde(path: &str, home: Option<&String>) -> (r: String)
    ensures
        r@ == expand_tilde_spec(path@, match home {
            Some(h) => Some(h@),
            None => None,
        }),
{
    if starts_with_str(path, "~/") {
        match home {
            Some(h) => {
                let hn = h.as_str().unicode_len();
                let mut out = h.clone();
                if hn == 0 || h.as_str().get_char(hn - 1) != '/' {
                    crate::text::push_char(&mut out, '/');
                }
                let n = path.unicode_len();
                proof {
                    reveal_strlit("~/");
                }
                let rest = path.substring_char(2, n);
                out.append(rest);
                proof {
                    reveal_strlit("/");
                    assert("/"@ =~= seq!['/']);
                    assert(out@ =~= home_joined(h@, path@.subrange(2, path@.len() as int)));
                }
                out
            },
            None => path.to_owned(),
        }
    } else {
        path.to_owned()
    }
}

/// Classify a parse failure of a key that was given without a passphrase:
/// a message speaking of encryption or a passphrase means one is required;
/// anything else is a plain parse failure.
pub fn classify_parse_failure(msg: String) -> (r: AuthError)
    ensures
        if seq_contains(msg@, "encrypted"@) || seq_contains(msg@, "passphrase"@) {
            r is PassphraseRequired
        } else {
            r matches AuthError::KeyParse(m) && m@ == msg@
        },
{
    if contains_str(msg.as_str(), "encrypted") || contains_str(msg.as_str(), "passphrase") {
        AuthError::PassphraseRequired
    } else {
        AuthError::KeyParse(msg)
    }
}

#[verifier::external_type_specification]
#[verifier::external_body]
pub struct ExPrivateKey(ssh_key::PrivateKey);

/// Whether parsing OpenSSH private-key text fails, and with what message:
/// a function of the text alone.
pub uninterp spec fn private_key_parse_error(s: Seq<char>) -> Option<Seq<char>>;

/// Relies on ssh_key::PrivateKey::from_openssh: whether the text parses,
/// and the parse error's message, depend on the text alone.
#[verifier::external_body]
fn parse_private_key(content: &str) -> (r: Result<ssh_key::PrivateKey, String>)
    ensures
        match r {
            Ok(_) => private_key_parse_error(content@) is None,
            Err(m) => private_key_parse_error(content@) == Some(m@),
        },
{
    ssh_key::PrivateKey::from_openssh(content).map_err(|e| e.to_string())
}

/// Relies on ssh_key::PrivateKey::decrypt: yields the decrypted key, or an
/// error when the passphrase does not fit.
#[verifier::external_body]
fn decrypt_private_key(key: &ssh_key::PrivateKey, passphrase: &[u8]) -> (r: Result<
    ssh_key::PrivateKey,
    String,
>)
{
    key.decrypt(passphrase).map_err(|e| e.to_string())
}

/// Load a private key from the text of its file. With a passphrase, a
/// parse failure is a plain parse error and a decrypt failure means the
/// passphrase is wrong; without one, the parse error's wording decides
/// whether a passphrase is required.
pub fn load_key_from_content(content: &str, passphrase: Option<&String>) -> (r: Result<
    ssh_key::PrivateKey,
    AuthError,
>)
    ensures
        match passphrase {
            Some(_) => {
                &&& private_key_parse_error(content@) is Some ==> (r matches Err(
                    AuthError::KeyParse(m),
                ) && m@ == "Failed to parse key"@)
                &&& private_key_parse_error(content@) is None ==> (r is Ok || r matches Err(
                    AuthError::InvalidPassphrase,
                ))
            },
            None => match private_key_parse_error(content@) {
                Some(m) => if seq_contains(m, "encrypted"@) || seq_contains(m, "passphrase"@) {
                    r matches Err(AuthError::PassphraseRequired)
                } else {
                    r matches Err(AuthError::KeyParse(km)) && km@ == m
                },
                None => r is Ok,
            },
        },
{
    match passphrase {
        Some(pass) => {
            match parse_private_key(content) {
                Ok(key) => {
                    match decrypt_private_key(&key, pass.as_str().as_bytes()) {
                        Ok(k) => Ok(k),
                        Err(_) => Err(AuthError::InvalidPassphrase),
                    }
                },
                Err(_) => {
                    let mut m = String::new();
                    m.append("Failed to parse key");
                    Err(AuthError::KeyParse(m))
                },
            }
        },
        None => {
            match parse_private_key(content) {
                Ok(key) => Ok(key),
                Err(msg) => Err(classify_parse_failure(msg)),
            }
        },
    }
}

} // verus!
