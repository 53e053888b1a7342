//! Secure-storage commands: get, set and delete a named value in the
//! platform credential store, scoped to the fixed application service name,
//! together with a verified model of the store the platform maintains.

use vstd::prelude::*;
use vstd::hash_map::StringHashMap;
use crate::messages;

verus! {

#[verifier::external_type_specification]
#[verifier::external_body]
pub struct ExEntry(keyring_core::Entry);

#[verifier::external_type_specification]
#[verifier::external_body]
pub struct ExKeyringError(keyring_core::Error);

/// Relies on `keyring_core::Entry::new`: opens a handle on the entry scoped
/// by service and key in the process's default credential store; fails when
/// no default store is set or a parameter is refused.
pub assume_specification[ keyring_core::Entry::new ](
    service: &str,
    user: &str,
) -> Result<keyring_core::Entry, keyring_core::Error>;

/// Relies on `keyring_core::Entry::get_password`: returns the stored value,
/// or fails (with `NoEntry` when nothing is stored under the entry).
pub assume_specification[ keyring_core::Entry::get_password ](
    entry: &keyring_core::Entry,
) -> Result<String, keyring_core::Error>;

/// Relies on `keyring_core::Entry::set_password`: writes the value, creating
/// the underlying credential when it is absent.
pub assume_specification[ keyring_core::Entry::set_password ](
    entry: &keyring_core::Entry,
    password: &str,
) -> Result<(), keyring_core::Error>;

/// Relies on `keyring_core::Entry::delete_credential`: removes the
/// underlying credential, or fails (with `NoEntry` when it is absent).
pub assume_specification[ keyring_core::Entry::delete_credential ](
    entry: &keyring_core::Entry,
) -> Result<(), keyring_core::Error>;

/// Renders a credential-store error as text.
///
/// Relies on the `Display` impl of `keyring_core::Error` through
/// `ToString::to_string`.
#[verifier::external_body]
fn keyring_error_text(e: &keyring_core::Error) -> String {
    e.to_string()
}

/// Reads the value stored under `key`, scoped to the application's service
/// name. The store decides the outcome; every failure is reported with the
/// prefix of the step that failed.
pub fn get_secure_value(key: String) -> (r: Result<String, String>)
    ensures
        r matches Err(e) ==> exists|d: Seq<char>|
            e@ == messages::keyring_err_prefix() + d || e@ == messages::not_found_prefix() + d,
{
    match keyring_core::Entry::new("wakfarm", key.as_str()) {
        Ok(entry) => match entry.get_password() {
            Ok(v) => Ok(v),
            Err(e) => {
                let detail = keyring_error_text(&e);
                let msg = messages::prefixed("Password not found: ", detail.as_str());
                proof {
                    assert(exists|d: Seq<char>| msg@ == messages::not_found_prefix() + d) by {
                        assert(msg@ == messages::not_found_prefix() + detail@);
                    }
                }
                Err(msg)
            },
        },
        Err(e) => {
            let detail = keyring_error_text(&e);
            let msg = messages::prefixed("Keyring error: ", detail.as_str());
            proof {
                assert(exists|d: Seq<char>| msg@ == messages::keyring_err_prefix() + d) by {
                    assert(msg@ == messages::keyring_err_prefix() + detail@);
                }
            }
            Err(msg)
        },
    }
}

/// Writes `value` under `key`, scoped to the application's service name,
/// creating or overwriting the entry. The store decides the outcome; every
/// failure is reported with the prefix of the step that failed.
pub fn set_secure_value(key: String, value: String) -> (r: Result<(), String>)
    ensures
        r matches Err(e) ==> exists|d: Seq<char>|
            e@ == messages::keyring_err_prefix() + d || e@ == messages::store_failed_prefix() + d,
{
    match keyring_core::Entry::new("wakfarm", key.as_str()) {
        Ok(entry) => match entry.set_password(value.as_str()) {
            Ok(u) => Ok(u),
            Err(e) => {
                let detail = keyring_error_text(&e);
                let msg = messages::prefixed("Failed to store: ", detail.as_str());
                proof {
                    assert(exists|d: Seq<char>| msg@ == messages::store_failed_prefix() + d) by {
                        assert(msg@ == messages::store_failed_prefix() + detail@);
                    }
                }
                Err(msg)
            },
        },
        Err(e) => {
            let detail = keyring_error_text(&e);
            let msg = messages::prefixed("Keyring error: ", detail.as_str());
            proof {
                assert(exists|d: Seq<char>| msg@ == messages::keyring_err_prefix() + d) by {
                    assert(msg@ == messages::keyring_err_prefix() + detail@);
                }
            }
            Err(msg)
        },
    }
}

/// Deletes the entry stored under `key`, scoped to the application's service
/// name; deleting an absent entry fails. The store decides the outcome;
/// every failure is reported with the prefix of the step that failed.
pub fn delete_secure_value(key: String) -> (r: Result<(), String>)
    ensures
        r matches Err(e) ==> exists|d: Seq<char>|
            e@ == messages::keyring_err_prefix() + d || e@ == messages::delete_failed_prefix() + d,
{
    match keyring_core::Entry::new("wakfarm", key.as_str()) {
        Ok(entry) => match entry.delete_credential() {
            Ok(u) => Ok(u),
            Err(e) => {
                let detail = keyring_error_text(&e);
                let msg = messages::prefixed("Failed to delete: ", detail.as_str());
                proof {
                    assert(exists|d: Seq<char>| msg@ == messages::delete_failed_prefix() + d) by {
                        assert(msg@ == messages::delete_failed_prefix() + detail@);
                    }
                }
                Err(msg)
            },
        },
        Err(e) => {
            let detail = keyring_error_text(&e);
            let msg = messages::prefixed("Keyring error: ", detail.as_str());
            proof {
                assert(exists|d: Seq<char>| msg@ == messages::keyring_err_prefix() + d) by {
                    assert(msg@ == messages::keyring_err_prefix() + detail@);
                }
            }
            Err(msg)
        },
    }
}

/// A model of the credential store the platform maintains for one service:
/// the map from key names to stored values. The commands above hand their
/// work to the platform store; this model states, and the laws below prove,
/// what that store's documented operations do to its contents.
pub struct SecretStore {
    m: StringHashMap<String>,
}

impl View for SecretStore {
    type V = Map<Seq<char>, String>;

    closed spec fn view(&self) -> Map<Seq<char>, String> {
        self.m@
    }
}

impl SecretStore {
    /// An empty store: no key holds a value.
    pub fn new() -> (r: SecretStore)
        ensures
            r@ == Map::<Seq<char>, String>::empty(),
    {
        SecretStore { m: StringHashMap::new() }
    }

    /// Reads the value stored under `key`: the stored value, or nothing
    /// when the key is absent.
    pub fn get(&self, key: &String) -> (r: Option<String>)
        ensures
            match r {
                Some(v) => self@.contains_key(key@) && v == self@[key@],
                None => !self@.contains_key(key@),
            },
    {
        match self.m.get(key.as_str()) {
            Some(v) => Some(v.clone()),
            None => None,
        }
    }

    /// Writes `value` under `key`, creating the entry or overwriting the
    /// previous value.
    pub fn set(&mut self, key: String, value: String)
        ensures
            final(self)@ == old(self)@.insert(key@, value),
    {
        self.m.insert(key, value);
    }

    /// Deletes the entry under `key`; reports whether an entry was there,
    /// and an absent key leaves the store unchanged.
    pub fn delete(&mut self, key: &String) -> (r: bool)
        ensures
            r == old(self)@.contains_key(key@),
            final(self)@ == old(self)@.remove(key@),
            !r ==> final(self)@ == old(self)@,
    {
        let present = self.m.contains_key(key.as_str());
        self.m.remove(key.as_str());
        proof {
            if !present {
                assert(old(self)@.remove(key@) =~= old(self)@);
            }
        }
        present
    }
}

/// Law: storing a value and then reading the same key returns exactly that
/// value.
pub proof fn lemma_set_then_get(m: Map<Seq<char>, String>, k: Seq<char>, v: String)
    ensures
        m.insert(k, v).contains_key(k),
        m.insert(k, v)[k] == v,
{
}

/// Law: deleting a key and then reading it finds nothing, whatever was
/// stored before.
pub proof fn lemma_delete_then_get(m: Map<Seq<char>, String>, k: Seq<char>)
    ensures
        !m.remove(k).contains_key(k),
{
}

} // verus!
