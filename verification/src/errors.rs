//! Error types shared by the operation stores, the node and the transports.
use vstd::prelude::*;

verus! {

/// Error returned by an operation store's publish, subscribe or replay.
#[derive(Debug, Clone)]
pub enum StoreError {
    /// No region has been bound to the given app/instance on the server.
    RegionNotBound(String),
    /// Any other error.
    Other(String),
}

/// Errors emitted by the node that consumers (e.g. a WebSocket handler) may
/// want to surface directly to users.
#[derive(Debug, Clone)]
pub enum NodeError {
    /// No region has been bound to this app/instance on the remote server.
    RegionNotBound(String),
    /// The remote gRPC server could not be reached or did not respond.
    GrpcUnavailable(String),
}

/// The variant of a [`NodeError`], without its message.
#[derive(Debug, Clone, Copy, PartialEq, Eq, Structural)]
pub enum NodeErrorKind {
    RegionNotBound,
    GrpcUnavailable,
}

/// Error returned by a node backend's publish.
#[derive(Debug, Clone)]
pub struct PublishError(pub String);

/// What a failed call of the remote p2panda client reports, as plain values:
/// either the server's "region not bound" message, or any other RPC status
/// rendered as text.
#[derive(Debug, Clone)]
pub enum PandaFailure {
    RegionNotBound(String),
    Rpc(String),
}

/// The user-facing text that replaces any transport error other than a
/// missing region binding.
pub open spec fn grpc_unavailable_text() -> Seq<char> {
    "Could not connect to the LoRes Node for this server"@
}

/// The prefix of the error reported when an operation cannot be serialized.
pub open spec fn serialize_failure_prefix() -> Seq<char> {
    "Failed to serialize operation: "@
}

/// The store error that a failure of the remote p2panda client becomes: a
/// missing region binding keeps its message, any other RPC failure becomes
/// `Other` with the status text.
pub open spec fn spec_from_panda(failure: PandaFailure) -> StoreError {
    match failure {
        PandaFailure::RegionNotBound(msg) => StoreError::RegionNotBound(msg),
        PandaFailure::Rpc(text) => StoreError::Other(text),
    }
}

impl StoreError {
    /// The text of the error: the message it carries.
    pub open spec fn spec_message(&self) -> Seq<char> {
        match self {
            StoreError::RegionNotBound(msg) => msg@,
            StoreError::Other(msg) => msg@,
        }
    }

    /// Returns the text of the error.
    pub fn message(&self) -> (r: String)
        ensures
            r@ == self.spec_message(),
    {
        match self {
            StoreError::RegionNotBound(msg) => msg.clone(),
            StoreError::Other(msg) => msg.clone(),
        }
    }

    /// The error reported when an operation cannot be serialized; `detail`
    /// is the serializer's own description of the failure.
    pub fn serialization_failure(detail: &str) -> (r: StoreError)
        ensures
            r matches StoreError::Other(msg) && msg@ == serialize_failure_prefix() + detail@,
    {
        let mut msg = "Failed to serialize operation: ".to_owned();
        msg.append(detail);
        proof {
            reveal_strlit("Failed to serialize operation: ");
        }
        StoreError::Other(msg)
    }

    /// Converts a failure of the remote p2panda client into a store error:
    /// a missing region binding keeps its message, any other RPC failure
    /// becomes `Other` with the status text.
    pub fn from_panda(failure: PandaFailure) -> (r: StoreError)
        ensures
            r == spec_from_panda(failure),
    {
        match failure {
            PandaFailure::RegionNotBound(msg) => StoreError::RegionNotBound(msg),
            PandaFailure::Rpc(text) => StoreError::Other(text),
        }
    }

    /// A copy of this error.
    pub fn duplicate(&self) -> (r: StoreError)
        ensures
            r == *self,
    {
        match self {
            StoreError::RegionNotBound(msg) => StoreError::RegionNotBound(msg.clone()),
            StoreError::Other(msg) => StoreError::Other(msg.clone()),
        }
    }
}

impl NodeError {
    /// The variant of the error.
    pub open spec fn spec_kind(&self) -> NodeErrorKind {
        match self {
            NodeError::RegionNotBound(_) => NodeErrorKind::RegionNotBound,
            NodeError::GrpcUnavailable(_) => NodeErrorKind::GrpcUnavailable,
        }
    }

    /// The text of the error: the message it carries.
    pub open spec fn spec_message(&self) -> Seq<char> {
        match self {
            NodeError::RegionNotBound(msg) => msg@,
            NodeError::GrpcUnavailable(msg) => msg@,
        }
    }

    /// Returns the variant of the error.
    pub fn kind(&self) -> (k: NodeErrorKind)
        ensures
            k == self.spec_kind(),
    {
        match self {
            NodeError::RegionNotBound(_) => NodeErrorKind::RegionNotBound,
            NodeError::GrpcUnavailable(_) => NodeErrorKind::GrpcUnavailable,
        }
    }

    /// Returns the text of the error.
    pub fn message(&self) -> (r: String)
        ensures
            r@ == self.spec_message(),
    {
        match self {
            NodeError::RegionNotBound(msg) => msg.clone(),
            NodeError::GrpcUnavailable(msg) => msg.clone(),
        }
    }

    /// A copy of this error.
    pub fn duplicate(&self) -> (r: NodeError)
        ensures
            r == *self,
    {
        match self {
            NodeError::RegionNotBound(msg) => NodeError::RegionNotBound(msg.clone()),
            NodeError::GrpcUnavailable(msg) => NodeError::GrpcUnavailable(msg.clone()),
        }
    }
}

impl PublishError {
    /// Returns the text of the error.
    pub fn message(&self) -> (r: String)
        ensures
            r@ == self.0@,
    {
        self.0.clone()
    }
}

/// Whether `node` is the node error that the store error `err` is surfaced
/// as: a missing region binding keeps its message; every other failure
/// becomes `GrpcUnavailable` with a fixed explanation.
pub open spec fn surfaces_as(err: StoreError, node: NodeError) -> bool {
    match err {
        StoreError::RegionNotBound(msg) => node == NodeError::RegionNotBound(msg),
        StoreError::Other(_) => node matches NodeError::GrpcUnavailable(m) && m@
            == grpc_unavailable_text(),
    }
}

/// Maps a store error to the node error surfaced to users.
pub fn map_store_error(err: StoreError) -> (r: NodeError)
    ensures
        surfaces_as(err, r),
{
    match err {
        StoreError::RegionNotBound(msg) => NodeError::RegionNotBound(msg),
        StoreError::Other(_) => {
            let msg = "Could not connect to the LoRes Node for this server".to_owned();
            proof {
                reveal_strlit("Could not connect to the LoRes Node for this server");
            }
            NodeError::GrpcUnavailable(msg)
        },
    }
}

} // verus!
