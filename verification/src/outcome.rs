//! From what the credential store answered to what a caller is told.
//!
//! A caller sees two things only: a secret that is absent, which is no error,
//! and an access error that carries a readable message. Everything here is a
//! function of the store's answer alone, so each contract is exact.

use vstd::prelude::*;

verus! {

/// Why a lookup or a removal did not succeed.
#[derive(Debug)]
pub enum BackendFailure {
    /// The store holds no record under the identity.
    NotFound,
    /// Anything else, with the store's own description of it.
    Other(String),
}

/// A `BackendFailure` as contracts speak of it.
pub enum FailureView {
    NotFound,
    Other(Seq<char>),
}

impl View for BackendFailure {
    type V = FailureView;

    open spec fn view(&self) -> FailureView {
        match self {
            BackendFailure::NotFound => FailureView::NotFound,
            BackendFailure::Other(detail) => FailureView::Other(detail@),
        }
    }
}

impl DeepView for BackendFailure {
    type V = FailureView;

    open spec fn deep_view(&self) -> FailureView {
        self@
    }
}

/// A result as contracts speak of it: every string in it as its characters.
pub open spec fn result_view<T: DeepView, E: DeepView>(r: Result<T, E>) -> Result<T::V, E::V> {
    match r {
        Ok(value) => Ok(value.deep_view()),
        Err(error) => Err(error.deep_view()),
    }
}

/// How the message starts when no entry could be made for the identity.
pub open spec fn entry_prefix() -> Seq<char> {
    "Failed to create keychain entry: "@
}

/// How the message starts when the secret could not be written.
pub open spec fn store_prefix() -> Seq<char> {
    "Failed to store key: "@
}

/// How the message starts when the secret could not be read.
pub open spec fn load_prefix() -> Seq<char> {
    "Failed to load key: "@
}

/// How the message starts when the secret could not be removed.
pub open spec fn clear_prefix() -> Seq<char> {
    "Failed to clear key: "@
}

/// What a store reports, given the answer to the write: `Ok`, or the store's
/// description of the failure. A write has no absent case, so every failure
/// is an access error.
pub open spec fn store_result(answer: Result<(), Seq<char>>) -> Result<(), Seq<char>> {
    match answer {
        Ok(_) => Ok(()),
        Err(detail) => Err(store_prefix() + detail),
    }
}

/// What a load reports, given the answer to the lookup. A missing record is a
/// success without a value; any other failure is an access error.
pub open spec fn load_result(answer: Result<Seq<char>, FailureView>) -> Result<
    Option<Seq<char>>,
    Seq<char>,
> {
    match answer {
        Ok(secret) => Ok(Some(secret)),
        Err(FailureView::NotFound) => Ok(None),
        Err(FailureView::Other(detail)) => Err(load_prefix() + detail),
    }
}

/// What a clear reports, given the answer to the removal. A missing record is
/// a success, since there was nothing to remove; any other failure is an
/// access error.
pub open spec fn clear_result(answer: Result<(), FailureView>) -> Result<(), Seq<char>> {
    match answer {
        Ok(_) => Ok(()),
        Err(FailureView::NotFound) => Ok(()),
        Err(FailureView::Other(detail)) => Err(clear_prefix() + detail),
    }
}

/// `prefix` followed by `detail`.
fn prefixed(prefix: &str, detail: &str) -> (message: String)
    ensures
        message@ == prefix@ + detail@,
{
    let message = String::from_str(prefix);
    message.concat(detail)
}

/// The access error for an identity for which the store could make no entry,
/// from the store's description of the failure.
pub fn entry_error(detail: &str) -> (message: String)
    ensures
        message@ == entry_prefix() + detail@,
{
    prefixed("Failed to create keychain entry: ", detail)
}

/// Turns the answer to a write into the result of a store.
pub fn store_outcome(answer: Result<(), String>) -> (r: Result<(), String>)
    ensures
        result_view(r) == store_result(result_view(answer)),
{
    match answer {
        Ok(()) => Ok(()),
        Err(detail) => Err(prefixed("Failed to store key: ", detail.as_str())),
    }
}

/// Turns the answer to a lookup into the result of a load.
pub fn load_outcome(answer: Result<String, BackendFailure>) -> (r: Result<Option<String>, String>)
    ensures
        result_view(r) == load_result(result_view(answer)),
{
    match answer {
        Ok(secret) => Ok(Some(secret)),
        Err(BackendFailure::NotFound) => Ok(None),
        Err(BackendFailure::Other(detail)) => Err(prefixed("Failed to load key: ", detail.as_str())),
    }
}

/// Turns the answer to a removal into the result of a clear.
pub fn clear_outcome(answer: Result<(), BackendFailure>) -> (r: Result<(), String>)
    ensures
        result_view(r) == clear_result(result_view(answer)),
{
    match answer {
        Ok(()) => Ok(()),
        Err(BackendFailure::NotFound) => Ok(()),
        Err(BackendFailure::Other(detail)) => Err(
            prefixed("Failed to clear key: ", detail.as_str()),
        ),
    }
}

} // verus!
