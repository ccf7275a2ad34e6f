//! How the answers of the remote p2panda node become store results.
use vstd::prelude::*;
use crate::errors::{spec_from_panda, PandaFailure, StoreError};

verus! {

/// The store's answer to a publish, from the remote node's answer: success
/// is kept (the assigned operation id is not needed), a failure becomes the
/// corresponding store error.
pub fn publish_result(answer: Result<(), PandaFailure>) -> (r: Result<(), StoreError>)
    ensures
        match answer {
            Ok(()) => r is Ok,
            Err(f) => r == Err::<(), StoreError>(spec_from_panda(f)),
        },
{
    match answer {
        Ok(()) => Ok(()),
        Err(f) => Err(StoreError::from_panda(f)),
    }
}

/// One item of the remote subscription stream: the event's payload, or the
/// stream's failure (the RPC status rendered as text) as `Other`.
pub fn stream_item(item: Result<Vec<u8>, String>) -> (r: Result<Vec<u8>, StoreError>)
    ensures
        match item {
            Ok(payload) => r == Ok::<Vec<u8>, StoreError>(payload),
            Err(text) => r == Err::<Vec<u8>, StoreError>(StoreError::Other(text)),
        },
{
    match item {
        Ok(payload) => Ok(payload),
        Err(text) => Err(StoreError::Other(text)),
    }
}

/// The local store's answer to a publish, from the outcome of inserting the
/// payload (`Ok` with the row id, or the database's description of the
/// failure).
pub fn local_publish_result(inserted: Result<i64, String>) -> (r: Result<(), StoreError>)
    ensures
        match inserted {
            Ok(_) => r is Ok,
            Err(why) => r == Err::<(), StoreError>(StoreError::Other(why)),
        },
{
    match inserted {
        Ok(_) => Ok(()),
        Err(why) => Err(StoreError::Other(why)),
    }
}

} // verus!
