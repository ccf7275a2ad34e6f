//! Decisions of the outbox store: persist locally, deliver remotely with the
//! local row id as idempotency key, delete the local row once delivered.
use vstd::prelude::*;
use crate::errors::StoreError;
use crate::text::{decimal_string, spec_decimal};

verus! {

/// What follows the local insert of a payload.
#[derive(Debug)]
pub enum AfterInsert {
    /// The payload could not be persisted: the publish fails with this error.
    Fail(StoreError),
    /// The payload is row `id`: deliver it remotely with idempotency key `key`.
    Deliver { id: i64, key: String },
}

/// What follows the remote delivery of row `id`.
#[derive(Debug, PartialEq, Eq, Structural)]
pub enum AfterDelivery {
    /// Delivered: delete the local row.
    DeleteLocal(i64),
    /// Not delivered: keep the local row for a future drain attempt.
    KeepLocal(i64),
}

/// The idempotency key of local row `id`: its decimal rendering.
pub open spec fn spec_idempotency_key(id: i64) -> Seq<char> {
    spec_decimal(id as int)
}

/// Returns the idempotency key of local row `id`.
pub fn idempotency_key(id: i64) -> (key: String)
    ensures
        key@ == spec_idempotency_key(id),
{
    decimal_string(id)
}

/// Decides what follows the local insert (`Ok` with the assigned row id,
/// or the database's description of the failure).
pub fn after_insert(inserted: Result<i64, String>) -> (step: AfterInsert)
    ensures
        match inserted {
            Ok(id) => step matches AfterInsert::Deliver { id: i, key } && i == id && key@
                == spec_idempotency_key(id),
            Err(why) => step == AfterInsert::Fail(StoreError::Other(why)),
        },
{
    match inserted {
        Ok(id) => AfterInsert::Deliver { id, key: idempotency_key(id) },
        Err(why) => AfterInsert::Fail(StoreError::Other(why)),
    }
}

/// Decides what follows the remote delivery of row `id`: the local row is
/// deleted exactly when the delivery succeeded.
pub fn after_delivery(id: i64, delivered: &Result<(), StoreError>) -> (step: AfterDelivery)
    ensures
        step == if delivered is Ok { AfterDelivery::DeleteLocal(id) } else { AfterDelivery::KeepLocal(id) },
{
    match delivered {
        Ok(()) => AfterDelivery::DeleteLocal(id),
        Err(_) => AfterDelivery::KeepLocal(id),
    }
}

/// The result of a publish whose payload was persisted locally, given what
/// followed the delivery attempt and, if the row was to be deleted, the
/// outcome of deleting it (the database's description on failure). It is
/// success in every case: a failed delivery keeps the row for a later drain
/// attempt and a failed deletion is only logged.
pub fn persisted_result(step: &AfterDelivery, deleted: &Option<Result<(), String>>) -> (r: Result<(), StoreError>)
    ensures
        r == Ok::<(), StoreError>(()),
{
    match step {
        AfterDelivery::DeleteLocal(_) => Ok(()),
        AfterDelivery::KeepLocal(_) => Ok(()),
    }
}

/// Distinct local rows are delivered with distinct idempotency keys, so the
/// server never merges two different operations.
pub proof fn law_idempotency_keys_distinct(a: i64, b: i64)
    requires
        a != b,
    ensures
        spec_idempotency_key(a) != spec_idempotency_key(b),
{
    crate::text::law_decimal_injective(a as int, b as int);
}

} // verus!
