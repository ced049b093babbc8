//! The record under the fixed identity, and what the commands do to it.
//!
//! What the operating system's store holds cannot be seen from inside a
//! process, and any call on it may fail. The laws of the three commands are
//! therefore laws of a store in working order: one that every call reaches and
//! that keeps the contract on which this library relies. A write files the
//! secret and replaces what was filed; a lookup gives what is filed and changes
//! nothing; a removal leaves nothing filed; and a lookup or a removal that
//! finds nothing says so. A command on such a store is the store's answer,
//! turned into the caller's result by the function that the command itself
//! uses for it.

use vstd::prelude::*;
use crate::outcome::{clear_result, load_result, store_result, FailureView};

verus! {

/// What is filed under the identity: nothing, or one secret. There is no way
/// to hold two.
pub type Record = Option<Seq<char>>;

/// A write on a store in working order: the record afterwards, and the answer.
pub open spec fn write(record: Record, secret: Seq<char>) -> (Record, Result<(), Seq<char>>) {
    (Some(secret), Ok(()))
}

/// A lookup on a store in working order. The record stays as it is.
pub open spec fn lookup(record: Record) -> Result<Seq<char>, FailureView> {
    match record {
        Some(secret) => Ok(secret),
        None => Err(FailureView::NotFound),
    }
}

/// A removal on a store in working order: the record afterwards, and the
/// answer.
pub open spec fn removal(record: Record) -> (Record, Result<(), FailureView>) {
    match record {
        Some(_) => (None, Ok(())),
        None => (None, Err(FailureView::NotFound)),
    }
}

/// Storing `secret` while the store holds `record`: the record afterwards, and
/// what the caller is told.
pub open spec fn store(record: Record, secret: Seq<char>) -> (Record, Result<(), Seq<char>>) {
    (write(record, secret).0, store_result(write(record, secret).1))
}

/// Loading while the store holds `record`: what the caller is told. The record
/// stays as it is.
pub open spec fn load(record: Record) -> Result<Option<Seq<char>>, Seq<char>> {
    load_result(lookup(record))
}

/// Clearing while the store holds `record`: the record afterwards, and what
/// the caller is told.
pub open spec fn clear(record: Record) -> (Record, Result<(), Seq<char>>) {
    (removal(record).0, clear_result(removal(record).1))
}

/// Whatever was filed before, storing a secret succeeds, and a load after it
/// returns that secret.
pub proof fn law_round_trip(record: Record, secret: Seq<char>)
    ensures
        store(record, secret).1 == Ok::<(), Seq<char>>(()),
        load(store(record, secret).0) == Ok::<Option<Seq<char>>, Seq<char>>(Some(secret)),
{
}

/// The last store wins: after two stores a single record is filed, it holds
/// the second secret, and a load returns it.
pub proof fn law_last_store_wins(record: Record, first: Seq<char>, second: Seq<char>)
    ensures
        store(store(record, first).0, second).0 == Some(second),
        load(store(store(record, first).0, second).0) == Ok::<Option<Seq<char>>, Seq<char>>(
            Some(second),
        ),
{
}

/// Clearing is idempotent. On a store without a record it succeeds and
/// changes nothing; on any store it succeeds, and a second clear right after
/// it succeeds too and leaves the store as the first left it.
pub proof fn law_clear_is_idempotent(record: Record)
    ensures
        clear(None) == (None::<Seq<char>>, Ok::<(), Seq<char>>(())),
        clear(record).1 == Ok::<(), Seq<char>>(()),
        clear(clear(record).0) == (clear(record).0, Ok::<(), Seq<char>>(())),
{
}

/// A missing secret is no failure: a load from a store without a record
/// succeeds, without a value.
pub proof fn law_absence_is_success()
    ensures
        load(None) == Ok::<Option<Seq<char>>, Seq<char>>(None),
{
}

/// Once a stored secret has been cleared, a load succeeds without a value.
pub proof fn law_absent_after_clear(record: Record, secret: Seq<char>)
    ensures
        load(clear(store(record, secret).0).0) == Ok::<Option<Seq<char>>, Seq<char>>(None),
{
}

} // verus!
