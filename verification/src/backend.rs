//! The credential store of the `keyring` crate, as far as this library uses it.
//!
//! Which store answers, and what it holds, is decided outside this process, so
//! nothing below promises anything about an outcome. The verified code is
//! proved for every answer that these calls can give.

use vstd::prelude::*;

verus! {

/// `keyring::Entry`: a handle on the credential filed under one service and
/// user name. Nothing inside it is visible to proofs.
#[verifier::external_type_specification]
#[verifier::external_body]
pub struct ExEntry(keyring::Entry);

/// `keyring::Error`: what the credential store reports when a call fails.
/// Nothing inside it is visible to proofs.
#[verifier::external_type_specification]
#[verifier::external_body]
pub struct ExError(keyring::Error);

/// `keyring::Entry::new` makes an entry for a service and user name with the
/// store that is the process's default. Whether it succeeds is up to that
/// store: nothing is claimed of the outcome.
pub assume_specification[ keyring::Entry::new ](service: &str, user: &str) -> (r: keyring::Result<
    keyring::Entry,
>)
;

/// `keyring::Entry::set_password` asks the store to file a password under the
/// entry. Nothing is claimed of the outcome.
pub assume_specification[ keyring::Entry::set_password ](
    entry: &keyring::Entry,
    password: &str,
) -> (r: keyring::Result<()>)
;

/// `keyring::Entry::get_password` asks the store for the password filed under
/// the entry. Nothing is claimed of the outcome.
pub assume_specification[ keyring::Entry::get_password ](entry: &keyring::Entry) -> (r:
    keyring::Result<String>)
;

/// `keyring::Entry::delete_password` asks the store to drop what is filed
/// under the entry. Nothing is claimed of the outcome.
pub assume_specification[ keyring::Entry::delete_password ](entry: &keyring::Entry) -> (r:
    keyring::Result<()>)
;

/// Whether a `keyring::Error` is the variant `NoEntry`, by which a store says
/// that it holds nothing under the entry. The variants are not visible to
/// proofs, so nothing is claimed of the answer.
#[verifier::external_body]
pub(crate) fn is_no_entry(e: &keyring::Error) -> (b: bool)
{
    matches!(e, keyring::Error::NoEntry)
}

} // verus!
