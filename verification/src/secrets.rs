//! API keys kept in the platform credential store through `keyring`.
use vstd::prelude::*;
use crate::text::push_str;

verus! {

/// The credential-store service under which every key is filed.
pub const SERVICE_NAME: &'static str = "fluidvoice-windows";

/// `keyring::Entry`: a handle on one credential.
#[verifier::external_type_specification]
#[verifier::external_body]
pub struct ExKeyringEntry(keyring::Entry);

/// `keyring::Error`.
#[verifier::external_type_specification]
#[verifier::external_body]
pub struct ExKeyringError(keyring::Error);

#[derive(Debug, Clone)]
pub struct SecretStatus {
    pub key: String,
    pub exists: bool,
}

#[derive(Debug)]
pub enum SecretError {
    Entry(keyring::Error),
    Read(keyring::Error),
    Write(keyring::Error),
    Delete(keyring::Error),
}

/// What reading a credential found.
#[derive(Debug)]
pub enum CredentialRead {
    Found(String),
    /// The store holds no credential for the entry.
    Missing,
    Failed(keyring::Error),
}

/// What deleting a credential did.
#[derive(Debug)]
pub enum CredentialRemoval {
    Removed,
    /// The store held no credential for the entry.
    Missing,
    Failed(keyring::Error),
}

/// Where the secret of a key is kept: the credential `user` of `service`.
#[derive(Debug, Clone)]
pub struct CredentialAddress {
    pub service: String,
    pub user: String,
}

/// A secret to be written, and where it goes.
#[derive(Debug, Clone)]
pub struct CredentialWrite {
    pub address: CredentialAddress,
    pub password: String,
}

/// The credential of a key: the key as the user, under this app's service
/// name.
pub fn credential_address(key: &str) -> (r: CredentialAddress)
    ensures
        r.service@ == SERVICE_NAME@,
        r.user@ == key@,
{
    CredentialAddress { service: String::from_str(SERVICE_NAME), user: String::from_str(key) }
}

/// Writing `secret` as the password of the credential of `key`.
pub fn credential_write(key: &str, secret: &str) -> (w: CredentialWrite)
    ensures
        w.address.service@ == SERVICE_NAME@,
        w.address.user@ == key@,
        w.password@ == secret@,
{
    CredentialWrite { address: credential_address(key), password: String::from_str(secret) }
}

/// Opens the credential at `address` (`keyring::Entry::new` with its
/// service and user).
///
/// `Entry::new` builds the entry through a credential builder that the
/// process can replace at run time, so whether it succeeds is not stated.
#[verifier::external_body]
fn open_entry(address: &CredentialAddress) -> Result<keyring::Entry, keyring::Error> {
    keyring::Entry::new(address.service.as_str(), address.user.as_str())
}

/// Stores the password of `write` in a credential
/// (`keyring::Entry::set_password`).
///
/// The outcome depends on the platform store, so nothing is stated.
#[verifier::external_body]
fn store_password(entry: &keyring::Entry, write: &CredentialWrite) -> Result<(), keyring::Error> {
    entry.set_password(write.password.as_str())
}

/// Reads a credential's password (`keyring::Entry::get_password`), telling
/// the `NoEntry` error apart from the others.
///
/// What the store holds is not known here, so nothing is stated.
#[verifier::external_body]
fn read_password(entry: &keyring::Entry) -> CredentialRead {
    match entry.get_password() {
        Ok(secret) => CredentialRead::Found(secret),
        Err(keyring::Error::NoEntry) => CredentialRead::Missing,
        Err(error) => CredentialRead::Failed(error),
    }
}

/// Deletes a credential (`keyring::Entry::delete_credential`), telling the
/// `NoEntry` error apart from the others.
///
/// What the store holds is not known here, so nothing is stated.
#[verifier::external_body]
fn remove_credential(entry: &keyring::Entry) -> CredentialRemoval {
    match entry.delete_credential() {
        Ok(()) => CredentialRemoval::Removed,
        Err(keyring::Error::NoEntry) => CredentialRemoval::Missing,
        Err(error) => CredentialRemoval::Failed(error),
    }
}

/// The `Display` text of a `keyring::Error`.
///
/// The text of platform failures comes from the platform, so nothing is
/// stated.
#[verifier::external_body]
fn keyring_error_message(e: &keyring::Error) -> String {
    format!("{}", e)
}

/// The credential entry of `key`, opened at `address`, which is that key's
/// credential.
fn open_address(key: &str, address: &CredentialAddress) -> (res: Result<keyring::Entry, SecretError>)
    requires
        address.service@ == SERVICE_NAME@,
        address.user@ == key@,
    ensures
        res matches Err(e) ==> e is Entry,
{
    match open_entry(address) {
        Ok(entry) => Ok(entry),
        Err(e) => Err(SecretError::Entry(e)),
    }
}

/// The credential entry for a key, under this app's service name.
fn entry_for(key: &str) -> (res: Result<keyring::Entry, SecretError>)
    ensures
        res matches Err(e) ==> e is Entry,
{
    open_address(key, &credential_address(key))
}

/// API keys by provider slot.
#[derive(Debug, Clone, Copy)]
pub struct SecretStore;

impl SecretStore {
    /// Stores `secret` under `key`.
    pub fn set(&self, key: &str, secret: &str) -> (res: Result<(), SecretError>)
        ensures
            res matches Err(e) ==> e is Entry || e is Write,
    {
        let write = credential_write(key, secret);
        SecretStore::put_credential(key, secret, &write)
    }

    /// Writes `write` to the store; it is the write of `secret` as the
    /// password of `key`'s credential.
    fn put_credential(key: &str, secret: &str, write: &CredentialWrite) -> (res: Result<
        (),
        SecretError,
    >)
        requires
            write.address.service@ == SERVICE_NAME@,
            write.address.user@ == key@,
            write.password@ == secret@,
        ensures
            res matches Err(e) ==> e is Entry || e is Write,
    {
        let entry = open_address(key, &write.address)?;
        SecretStore::write_outcome(store_password(&entry, write))
    }

    /// What a write means: success, or a write error.
    pub fn write_outcome(written: Result<(), keyring::Error>) -> (res: Result<(), SecretError>)
        ensures
            match written {
                Ok(()) => res is Ok,
                Err(_) => res matches Err(SecretError::Write(_)),
            },
    {
        match written {
            Ok(()) => Ok(()),
            Err(e) => Err(SecretError::Write(e)),
        }
    }

    /// The secret stored under `key`, if any.
    pub fn get(&self, key: &str) -> (res: Result<Option<String>, SecretError>)
        ensures
            res matches Err(e) ==> e is Entry || e is Read,
    {
        let entry = entry_for(key)?;
        SecretStore::read_outcome(read_password(&entry))
    }

    /// What a read means: a found secret, no secret, or a read error.
    pub fn read_outcome(read: CredentialRead) -> (res: Result<Option<String>, SecretError>)
        ensures
            match read {
                CredentialRead::Found(s) => res matches Ok(Some(t)) && t == s,
                CredentialRead::Missing => res matches Ok(None),
                CredentialRead::Failed(_) => res matches Err(SecretError::Read(_)),
            },
    {
        match read {
            CredentialRead::Found(secret) => Ok(Some(secret)),
            CredentialRead::Missing => Ok(None),
            CredentialRead::Failed(error) => Err(SecretError::Read(error)),
        }
    }

    /// Whether a secret is stored under `key`.
    pub fn status(&self, key: &str) -> (res: Result<SecretStatus, SecretError>)
        ensures
            res matches Ok(st) ==> st.key@ == key@,
            res matches Err(e) ==> e is Entry || e is Read,
    {
        let found = self.get(key);
        SecretStore::status_from(key, found)
    }

    /// The status of `key` given what reading it returned.
    pub fn status_from(key: &str, found: Result<Option<String>, SecretError>) -> (res: Result<
        SecretStatus,
        SecretError,
    >)
        ensures
            match found {
                Ok(s) => res matches Ok(st) && st.key@ == key@ && st.exists == (s is Some),
                Err(e) => res matches Err(f) && f == e,
            },
    {
        match found {
            Ok(secret) => Ok(SecretStatus { key: String::from_str(key), exists: secret.is_some() }),
            Err(e) => Err(e),
        }
    }

    /// Removes the secret under `key`; removing a missing secret succeeds.
    pub fn delete(&self, key: &str) -> (res: Result<(), SecretError>)
        ensures
            res matches Err(e) ==> e is Entry || e is Delete,
    {
        let entry = entry_for(key)?;
        SecretStore::removal_outcome(remove_credential(&entry))
    }

    /// What a removal means: both a removed and a missing credential are a
    /// success.
    pub fn removal_outcome(removal: CredentialRemoval) -> (res: Result<(), SecretError>)
        ensures
            match removal {
                CredentialRemoval::Failed(_) => res matches Err(SecretError::Delete(_)),
                _ => res is Ok,
            },
    {
        match removal {
            CredentialRemoval::Removed => Ok(()),
            CredentialRemoval::Missing => Ok(()),
            CredentialRemoval::Failed(error) => Err(SecretError::Delete(error)),
        }
    }
}

impl SecretError {
    /// The error's message.
    pub fn message(&self) -> (m: String)
        ensures
            self is Entry ==> m@.len() >= 33 && m@.subrange(0, 33)
                == "failed to open credential entry: "@,
            self is Read ==> m@.len() >= 27 && m@.subrange(0, 27) == "failed to read credential: "@,
            self is Write ==> m@.len() >= 28 && m@.subrange(0, 28)
                == "failed to write credential: "@,
            self is Delete ==> m@.len() >= 29 && m@.subrange(0, 29)
                == "failed to delete credential: "@,
    {
        let (prefix, e) = match self {
            SecretError::Entry(e) => ("failed to open credential entry: ", e),
            SecretError::Read(e) => ("failed to read credential: ", e),
            SecretError::Write(e) => ("failed to write credential: ", e),
            SecretError::Delete(e) => ("failed to delete credential: ", e),
        };
        let mut m = String::from_str(prefix);
        let detail = keyring_error_message(e);
        push_str(&mut m, detail.as_str());
        proof {
            reveal_strlit("failed to open credential entry: ");
            reveal_strlit("failed to read credential: ");
            reveal_strlit("failed to write credential: ");
            reveal_strlit("failed to delete credential: ");
        }
        assert(m@.subrange(0, prefix@.len() as int) =~= prefix@);
        m
    }
}

} // verus!
