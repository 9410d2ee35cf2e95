//! Secure storage of passwords and key passphrases in the operating
//! system's credential store, namespaced under one service name.

use vstd::prelude::*;
use crate::text::{seq_contains, contains_str};

verus! {

/// Why a credential operation failed.
#[derive(Debug)]
pub enum CredentialError {
    StoreFailed(String),
    RetrieveFailed(String),
    NotFound,
}

/// The service name all credentials are stored under.
pub fn service_name() -> (r: &'static str)
    ensures
        r@ == "driftcode"@,
{
    "driftcode"
}

#[verifier::external_type_specification]
#[verifier::external_body]
pub struct ExKeyringEntry(keyring::Entry);

/// Relies on keyring::Entry::new: a handle on the platform credential store
/// for one service/user pair, or an error rendered as text.
#[verifier::external_body]
fn keyring_entry(service: &str, user: &str) -> (r: Result<keyring::Entry, String>)
{
    keyring::Entry::new(service, user).map_err(|e| e.to_string())
}

/// Relies on keyring::Entry::set_password: stores the secret, or reports an
/// error rendered as text.
#[verifier::external_body]
fn keyring_set_password(entry: &keyring::Entry, password: &str) -> (r: Result<(), String>)
{
    entry.set_password(password).map_err(|e| e.to_string())
}

/// Relies on keyring::Entry::get_password: yields the stored secret, or an
/// error rendered as text.
#[verifier::external_body]
fn keyring_get_password(entry: &keyring::Entry) -> (r: Result<String, String>)
{
    entry.get_password().map_err(|e| e.to_string())
}

/// Relies on keyring::Entry::delete_credential: removes the stored secret,
/// or reports an error rendered as text.
#[verifier::external_body]
fn keyring_delete(entry: &keyring::Entry) -> (r: Result<(), String>)
{
    entry.delete_credential().map_err(|e| e.to_string())
}

/// Classify a retrieval failure: the store's no-such-entry wording becomes
/// `NotFound`; anything else keeps its message.
pub fn classify_retrieve_error(msg: String) -> (r: CredentialError)
    ensures
        if seq_contains(msg@, "No matching entry"@) {
            r is NotFound
        } else {
            r matches CredentialError::RetrieveFailed(m) && m@ == msg@
        },
{
    if contains_str(msg.as_str(), "No matching entry") {
        CredentialError::NotFound
    } else {
        CredentialError::RetrieveFailed(msg)
    }
}

/// The key under which a key file's passphrase is stored.
pub open spec fn passphrase_key_spec(key_path: Seq<char>) -> Seq<char> {
    "key:"@ + key_path
}

/// Render the storage key for a key file's passphrase.
pub fn passphrase_key(key_path: &str) -> (r: String)
    ensures
        r@ == passphrase_key_spec(key_path@),
{
    let mut s = String::new();
    s.append("key:");
    s.append(key_path);
    s
}

/// Credential store operations, all under one service name.
pub struct CredentialStore;

impl CredentialStore {
    /// Store a connection's password. What the platform store does is its
    /// own; failures surface with their message.
    pub fn store_password(connection_id: &str, password: &str) -> (r: Result<(), CredentialError>)
        ensures
            r matches Err(e) ==> e is StoreFailed,
    {
        let entry = match keyring_entry(service_name(), connection_id) {
            Ok(e) => e,
            Err(m) => {
                return Err(CredentialError::StoreFailed(m));
            },
        };
        match keyring_set_password(&entry, password) {
            Ok(()) => Ok(()),
            Err(m) => Err(CredentialError::StoreFailed(m)),
        }
    }

    /// Retrieve a stored password; a no-such-entry answer from the store
    /// surfaces as `NotFound` through `classify_retrieve_error`.
    pub fn get_password(connection_id: &str) -> (r: Result<String, CredentialError>)
        ensures
            r matches Err(e) ==> (e is RetrieveFailed || e is NotFound),
    {
        let entry = match keyring_entry(service_name(), connection_id) {
            Ok(e) => e,
            Err(m) => {
                return Err(CredentialError::RetrieveFailed(m));
            },
        };
        match keyring_get_password(&entry) {
            Ok(p) => Ok(p),
            Err(m) => Err(classify_retrieve_error(m)),
        }
    }

    /// Delete a stored password.
    pub fn delete_password(connection_id: &str) -> (r: Result<(), CredentialError>)
        ensures
            r matches Err(e) ==> e is StoreFailed,
    {
        let entry = match keyring_entry(service_name(), connection_id) {
            Ok(e) => e,
            Err(m) => {
                return Err(CredentialError::StoreFailed(m));
            },
        };
        match keyring_delete(&entry) {
            Ok(()) => Ok(()),
            Err(m) => Err(CredentialError::StoreFailed(m)),
        }
    }

    /// Store a key file's passphrase under its namespaced key.
    pub fn store_key_passphrase(key_path: &str, passphrase: &str) -> (r: Result<
        (),
        CredentialError,
    >)
        ensures
            r matches Err(e) ==> e is StoreFailed,
    {
        let key = passphrase_key(key_path);
        Self::store_password(key.as_str(), passphrase)
    }

    /// Retrieve a key file's stored passphrase.
    pub fn get_key_passphrase(key_path: &str) -> (r: Result<String, CredentialError>)
        ensures
            r matches Err(e) ==> (e is RetrieveFailed || e is NotFound),
    {
        let key = passphrase_key(key_path);
        Self::get_password(key.as_str())
    }
}

} // verus!
