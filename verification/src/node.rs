//! Decisions of publishing an operation through the node.
use vstd::prelude::*;
use crate::errors::{serialize_failure_prefix, StoreError};

verus! {

/// How a publish ends, once the store has answered.
#[derive(Debug)]
pub enum PublishOutcome<Op> {
    /// The store accepted the payload: broadcast the operation locally and
    /// report success.
    Accepted(Op),
    /// The store refused the payload: report its error, broadcast nothing.
    Rejected(StoreError),
}

/// The payload to hand to the store, from the outcome of serializing the
/// operation (`Err` holds the serializer's description of the failure).
pub fn payload_or_error(serialized: Result<Vec<u8>, String>) -> (r: Result<Vec<u8>, StoreError>)
    ensures
        match serialized {
            Ok(payload) => r == Ok::<Vec<u8>, StoreError>(payload),
            Err(detail) => r matches Err(StoreError::Other(msg))
                && msg@ == serialize_failure_prefix() + detail@,
        },
{
    match serialized {
        Ok(payload) => Ok(payload),
        Err(detail) => Err(StoreError::serialization_failure(detail.as_str())),
    }
}

/// How a publish ends given the store's answer: the operation is broadcast
/// locally only once the store accepted its payload.
pub fn publish_outcome<Op>(stored: Result<(), StoreError>, operation: Op) -> (r: PublishOutcome<Op>)
    ensures
        match stored {
            Ok(()) => r == PublishOutcome::Accepted(operation),
            Err(e) => r == PublishOutcome::<Op>::Rejected(e),
        },
{
    match stored {
        Ok(()) => PublishOutcome::Accepted(operation),
        Err(e) => PublishOutcome::Rejected(e),
    }
}

} // verus!
