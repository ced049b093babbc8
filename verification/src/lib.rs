//! One secret string kept in the operating system's credential store.
//!
//! The secret is filed under a fixed service and account name. It can be
//! stored, loaded and cleared: storing replaces what was there, loading leaves
//! it in place, and clearing a secret that is not there is no error. A caller
//! is told of two things only: that no secret is stored, which is a success
//! without a value, and that the store could not be used, which is an error
//! with a readable message.
//!
//! The store is reached through the `keyring` crate (`backend`). What it
//! answers is turned into the caller's result by `outcome`, and `record`
//! states what follows for a store in working order.
//!
//! Each command is one round trip to the store and returns when the store has
//! answered. That can take as long as the operating system needs to ask the
//! user for leave; nothing is retried and nothing is kept between calls.

use vstd::prelude::*;
use vstd::string::to_string_from_display_ensures;
use crate::backend::is_no_entry;
use crate::outcome::{
    clear_outcome, clear_prefix, entry_error, entry_prefix, load_outcome, load_prefix,
    store_outcome, store_prefix, BackendFailure,
};

pub mod backend;
pub mod outcome;
pub mod record;

verus! {

/// The service name under which the secret is filed.
pub const SERVICE_NAME: &'static str = "photovault";

/// The account name under which the secret is filed.
pub const USERNAME: &'static str = "secret_key";

/// Sorts the error `e` of a failed lookup or removal, where `missing` is what
/// `is_no_entry` says of it: a missing record, or else the text `e` displays.
fn failure_of(missing: bool, e: &keyring::Error) -> (failure: BackendFailure)
    ensures
        missing ==> failure is NotFound,
        !missing ==> (failure matches BackendFailure::Other(detail)
            && to_string_from_display_ensures::<keyring::Error>(e, detail)),
{
    if missing {
        BackendFailure::NotFound
    } else {
        BackendFailure::Other(e.to_string())
    }
}

/// Files `key` under the fixed identity, replacing what was filed there.
///
/// The credential store decides whether this succeeds. When it does not, the
/// message says at which step: no entry could be made for the identity, or the
/// store did not take the write. What follows the prefix is the store's own
/// description.
pub fn store_secret_key(key: String) -> (r: Result<(), String>)
    ensures
        r matches Err(message) ==> entry_prefix().is_prefix_of(message@)
            || store_prefix().is_prefix_of(message@),
{
    match keyring::Entry::new(SERVICE_NAME, USERNAME) {
        Err(e) => Err(entry_error(e.to_string().as_str())),
        Ok(entry) => match entry.set_password(key.as_str()) {
            Ok(()) => store_outcome(Ok(())),
            Err(e) => store_outcome(Err(e.to_string())),
        },
    }
}

/// Reads the secret filed under the fixed identity and leaves it in place.
///
/// `Ok(None)` says that nothing is filed there. When the store could not be
/// used, the message says at which step: no entry could be made for the
/// identity, or the lookup failed otherwise than for a missing record.
pub fn load_secret_key() -> (r: Result<Option<String>, String>)
    ensures
        r matches Err(message) ==> entry_prefix().is_prefix_of(message@)
            || load_prefix().is_prefix_of(message@),
{
    match keyring::Entry::new(SERVICE_NAME, USERNAME) {
        Err(e) => Err(entry_error(e.to_string().as_str())),
        Ok(entry) => match entry.get_password() {
            Ok(secret) => load_outcome(Ok(secret)),
            Err(e) => load_outcome(Err(failure_of(is_no_entry(&e), &e))),
        },
    }
}

/// Removes the secret filed under the fixed identity, if there is one.
///
/// A missing record is a success. When the store could not be used, the
/// message says at which step: no entry could be made for the identity, or the
/// removal failed otherwise than for a missing record.
pub fn clear_secret_key() -> (r: Result<(), String>)
    ensures
        r matches Err(message) ==> entry_prefix().is_prefix_of(message@)
            || clear_prefix().is_prefix_of(message@),
{
    match keyring::Entry::new(SERVICE_NAME, USERNAME) {
        Err(e) => Err(entry_error(e.to_string().as_str())),
        Ok(entry) => match entry.delete_password() {
            Ok(()) => clear_outcome(Ok(())),
            Err(e) => clear_outcome(Err(failure_of(is_no_entry(&e), &e))),
        },
    }
}

} // verus!
