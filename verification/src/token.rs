use vstd::prelude::*;

use crate::errors::CmdError;

verus! {

/// What a credential-store lookup found.
#[derive(Debug)]
pub enum Lookup {
    /// A token is stored; this is it.
    Found(String),
    /// No credential is stored for this service and user.
    Missing,
    /// The credential store itself failed, with a description.
    StoreError(String),
}

/// What removing a credential from the store came to.
#[derive(Debug)]
pub enum DeleteOutcome {
    /// A credential was stored and is now removed.
    Deleted,
    /// No credential was stored in the first place.
    NoEntry,
    /// The credential store itself failed, with a description.
    Failure(String),
}

#[verifier::external_type_specification]
#[verifier::external_body]
pub struct ExEntry(keyring::Entry);

/// Relies on keyring::Entry::new: builds the store handle for the
/// (service, user) pair, or reports why the store refused the pair.
#[verifier::external_body]
fn entry_new(service: &str, username: &str) -> (r: Result<keyring::Entry, String>) {
    keyring::Entry::new(service, username).map_err(|e| e.to_string())
}

/// Relies on keyring::Entry::get_password: reads the secret stored for this
/// entry; keyring::Error::NoEntry means none is stored.
#[verifier::external_body]
fn entry_get_password(entry: &keyring::Entry) -> (r: Lookup) {
    match entry.get_password() {
        Ok(t) => Lookup::Found(t),
        Err(keyring::Error::NoEntry) => Lookup::Missing,
        Err(e) => Lookup::StoreError(e.to_string()),
    }
}

/// Relies on keyring::Entry::set_password: stores the secret for this entry.
#[verifier::external_body]
fn entry_set_password(entry: &keyring::Entry, token: &str) -> (r: Result<(), String>) {
    entry.set_password(token).map_err(|e| e.to_string())
}

/// Relies on keyring::Entry::delete_credential: removes the credential
/// stored for this entry; keyring::Error::NoEntry means none was stored.
#[verifier::external_body]
fn entry_delete_credential(entry: &keyring::Entry) -> (r: DeleteOutcome) {
    match entry.delete_credential() {
        Ok(()) => DeleteOutcome::Deleted,
        Err(keyring::Error::NoEntry) => DeleteOutcome::NoEntry,
        Err(e) => DeleteOutcome::Failure(e.to_string()),
    }
}

/// Look in the credential store for the token stored under
/// (service, username). What comes back depends on the store's state.
pub fn lookup_token(service: &str, username: &str) -> Lookup {
    match entry_new(service, username) {
        Ok(entry) => entry_get_password(&entry),
        Err(m) => Lookup::StoreError(m),
    }
}

/// Turn a lookup into the token, or into the error the command reports:
/// a missing credential means the caller is not authenticated.
pub fn token_of_lookup(l: Lookup) -> (r: Result<String, CmdError>)
    ensures
        l matches Lookup::Found(t) ==> r == Ok::<String, CmdError>(t),
        l is Missing ==> r == Err::<String, CmdError>(CmdError::NotAuthenticated),
        l matches Lookup::StoreError(m) ==> r == Err::<String, CmdError>(CmdError::LocalIo(m)),
{
    match l {
        Lookup::Found(t) => Ok(t),
        Lookup::Missing => Err(CmdError::NotAuthenticated),
        Lookup::StoreError(m) => Err(CmdError::LocalIo(m)),
    }
}

/// Read the stored session token, reporting NotAuthenticated when the store
/// holds none for this service and user.
pub fn get_token(service: &str, username: &str) -> (r: Result<String, CmdError>)
    ensures
        r matches Err(e) ==> (e is NotAuthenticated || e is LocalIo),
{
    token_of_lookup(lookup_token(service, username))
}

/// Store a freshly issued session token under (service, username).
pub fn store_token(service: &str, username: &str, token: &str) -> (r: Result<(), CmdError>)
    ensures
        r matches Err(e) ==> e is LocalIo,
{
    match entry_new(service, username) {
        Ok(entry) => match entry_set_password(&entry, token) {
            Ok(u) => Ok(u),
            Err(m) => Err(CmdError::LocalIo(m)),
        },
        Err(m) => Err(CmdError::LocalIo(m)),
    }
}

/// Ask the credential store to remove the credential stored under
/// (service, username) and report what that came to. What comes back depends
/// on the store's state.
pub fn remove_token(service: &str, username: &str) -> DeleteOutcome {
    match entry_new(service, username) {
        Ok(entry) => entry_delete_credential(&entry),
        Err(m) => DeleteOutcome::Failure(m),
    }
}

/// Turn a removal outcome into the result the command reports: the store
/// holding no credential means the caller is not authenticated.
pub fn delete_conclude(o: DeleteOutcome) -> (r: Result<(), CmdError>)
    ensures
        o is Deleted ==> r == Ok::<(), CmdError>(()),
        o is NoEntry ==> r == Err::<(), CmdError>(CmdError::NotAuthenticated),
        o matches DeleteOutcome::Failure(m) ==> r == Err::<(), CmdError>(CmdError::LocalIo(m)),
{
    match o {
        DeleteOutcome::Deleted => Ok(()),
        DeleteOutcome::NoEntry => Err(CmdError::NotAuthenticated),
        DeleteOutcome::Failure(m) => Err(CmdError::LocalIo(m)),
    }
}

/// Remove the stored session token. Reports NotAuthenticated when the store
/// held none. The caller clears the locally saved username afterwards.
pub fn delete_token(service: &str, username: &str) -> (r: Result<(), CmdError>)
    ensures
        r matches Err(e) ==> (e is NotAuthenticated || e is LocalIo),
{
    delete_conclude(remove_token(service, username))
}

} // verus!
