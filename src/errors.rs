//! Error taxonomy of the core agent and how errors map to message-bus replies.

use vstd::prelude::*;
use vstd::string::StringExecFns;
use crate::message_bus::{protocol_name, Filter, Protocol};
use crate::store::{StoreError, store_error_message};
use crate::text::{decimal, decimal_of};

verus! {

/// Kind of resource that an error or a reply concerns.
#[derive(Clone, Copy, Debug, PartialEq, Eq, Structural)]
pub enum ResourceKind {
    Unknown,
    Node,
    Pool,
    Replica,
    Nexus,
    Child,
    Volume,
    JsonGrpc,
    Block,
    Watch,
}

/// Name of a resource kind.
pub open spec fn resource_kind_name(k: ResourceKind) -> Seq<char> {
    match k {
        ResourceKind::Unknown => "Unknown"@,
        ResourceKind::Node => "Node"@,
        ResourceKind::Pool => "Pool"@,
        ResourceKind::Replica => "Replica"@,
        ResourceKind::Nexus => "Nexus"@,
        ResourceKind::Child => "Child"@,
        ResourceKind::Volume => "Volume"@,
        ResourceKind::JsonGrpc => "JsonGrpc"@,
        ResourceKind::Block => "Block"@,
        ResourceKind::Watch => "Watch"@,
    }
}

impl ResourceKind {
    /// Name of this resource kind.
    pub fn name(&self) -> (r: &'static str)
        ensures
            r@ == resource_kind_name(*self),
    {
        match self {
            ResourceKind::Unknown => "Unknown",
            ResourceKind::Node => "Node",
            ResourceKind::Pool => "Pool",
            ResourceKind::Replica => "Replica",
            ResourceKind::Nexus => "Nexus",
            ResourceKind::Child => "Child",
            ResourceKind::Volume => "Volume",
            ResourceKind::JsonGrpc => "JsonGrpc",
            ResourceKind::Block => "Block",
            ResourceKind::Watch => "Watch",
        }
    }
}

/// Kind of a reply error sent back over the message bus.
#[derive(Clone, Copy, Debug, PartialEq, Eq, Structural)]
pub enum ReplyErrorKind {
    WithMessage,
    DeserializeReq,
    Internal,
    Timeout,
    InvalidArgument,
    DeadlineExceeded,
    NotFound,
    AlreadyExists,
    PermissionDenied,
    ResourceExhausted,
    FailedPrecondition,
    Aborted,
    OutOfRange,
    Unimplemented,
    Unavailable,
    Unauthenticated,
    Unauthorized,
    Conflict,
    FailedPersist,
    NotShared,
    AlreadyShared,
    NotPublished,
    AlreadyPublished,
    Deleting,
}

/// Error reply sent back over the message bus.
#[derive(Clone, Debug, PartialEq)]
pub struct ReplyError {
    /// error kind
    pub kind: ReplyErrorKind,
    /// resource kind
    pub resource: ResourceKind,
    /// last source of this error
    pub source: String,
    /// extra information
    pub extra: String,
}

/// Status code of a failed gRPC request.
#[derive(Clone, Copy, Debug, PartialEq, Eq, Structural)]
pub enum GrpcCode {
    /// the request succeeded
    Success,
    Cancelled,
    Unknown,
    InvalidArgument,
    DeadlineExceeded,
    NotFound,
    AlreadyExists,
    PermissionDenied,
    ResourceExhausted,
    FailedPrecondition,
    Aborted,
    OutOfRange,
    Unimplemented,
    Internal,
    Unavailable,
    DataLoss,
    Unauthenticated,
}

/// Status of a failed gRPC request: its code and its display text.
#[derive(Clone, Debug, PartialEq)]
pub struct GrpcStatus {
    pub code: GrpcCode,
    pub message: String,
}

/// Reply kind for a gRPC status code.
pub open spec fn grpc_reply_kind(code: GrpcCode) -> ReplyErrorKind {
    match code {
        GrpcCode::Success => ReplyErrorKind::Internal,
        GrpcCode::Cancelled => ReplyErrorKind::Internal,
        GrpcCode::Unknown => ReplyErrorKind::Internal,
        GrpcCode::InvalidArgument => ReplyErrorKind::InvalidArgument,
        GrpcCode::DeadlineExceeded => ReplyErrorKind::DeadlineExceeded,
        GrpcCode::NotFound => ReplyErrorKind::NotFound,
        GrpcCode::AlreadyExists => ReplyErrorKind::AlreadyExists,
        GrpcCode::PermissionDenied => ReplyErrorKind::PermissionDenied,
        GrpcCode::ResourceExhausted => ReplyErrorKind::ResourceExhausted,
        GrpcCode::FailedPrecondition => ReplyErrorKind::FailedPrecondition,
        GrpcCode::Aborted => ReplyErrorKind::Aborted,
        GrpcCode::OutOfRange => ReplyErrorKind::OutOfRange,
        GrpcCode::Unimplemented => ReplyErrorKind::Unimplemented,
        GrpcCode::Internal => ReplyErrorKind::Internal,
        GrpcCode::Unavailable => ReplyErrorKind::Unavailable,
        GrpcCode::DataLoss => ReplyErrorKind::Internal,
        GrpcCode::Unauthenticated => ReplyErrorKind::Unauthenticated,
    }
}

/// Not enough resources available
#[derive(Clone, Debug, PartialEq)]
pub enum NotEnough {
    OfPools { have: u64, need: u64 },
    OfReplicas { have: u64, need: u64 },
    OfNexuses { have: u64, need: u64 },
}

/// Display text of a shortage.
pub open spec fn not_enough_message(e: NotEnough) -> Seq<char> {
    match e {
        NotEnough::OfPools { have, need } => "Not enough suitable pools available, "@
            + decimal_of(have as nat) + "/"@ + decimal_of(need as nat),
        NotEnough::OfReplicas { have, need } => "Not enough replicas available, "@ + decimal_of(
            have as nat,
        ) + "/"@ + decimal_of(need as nat),
        NotEnough::OfNexuses { have, need } => "Not enough nexuses available, "@ + decimal_of(
            have as nat,
        ) + "/"@ + decimal_of(need as nat),
    }
}

impl NotEnough {
    /// Display text of this shortage.
    pub fn message(&self) -> (r: String)
        ensures
            r@ == not_enough_message(*self),
    {
        let (mut s, have, need) = match self {
            NotEnough::OfPools { have, need } => (
                String::from_str("Not enough suitable pools available, "),
                *have,
                *need,
            ),
            NotEnough::OfReplicas { have, need } => (
                String::from_str("Not enough replicas available, "),
                *have,
                *need,
            ),
            NotEnough::OfNexuses { have, need } => (
                String::from_str("Not enough nexuses available, "),
                *have,
                *need,
            ),
        };
        let h = decimal(have);
        s.append(h.as_str());
        s.append("/");
        let n = decimal(need);
        s.append(n.as_str());
        s
    }
}

/// Common error type for send/receive
#[derive(Clone, Debug, PartialEq)]
pub enum SvcError {
    BusGetNode { node: String, source: ReplyError },
    BusGetNodes { source: ReplyError },
    NodeNotOnline { node: String },
    NoNodes {},
    GrpcConnectTimeout { node_id: String, endpoint: String, timeout_ms: u64 },
    GrpcConnect { source: String },
    GrpcConnectUri { node_id: String, uri: String, source: String },
    GrpcRequestError { resource: ResourceKind, request: String, source: GrpcStatus },
    NodeNotFound { node_id: String },
    PoolNotFound { pool_id: String },
    NexusNotFound { nexus_id: String },
    NotFound { kind: ResourceKind, id: String },
    PendingCreation { kind: ResourceKind, id: String },
    PendingDeletion { kind: ResourceKind, id: String },
    ChildNotFound { nexus: String, child: String },
    ChildAlreadyExists { nexus: String, child: String },
    VolumeNotFound { vol_id: String },
    VolumeNotPublished { vol_id: String },
    VolumeAlreadyPublished { vol_id: String, node: String, protocol: String },
    ReplicaNotFound { replica_id: String },
    AlreadyShared { kind: ResourceKind, id: String, share: Protocol },
    NotShared { kind: ResourceKind, id: String },
    InvalidFilter { filter: Filter },
    NotEnoughResources { source: NotEnough },
    JsonRpcDeserialise { source: String },
    JsonRpc { method: String, params: String, error: String },
    Internal { details: String },
    MBusError { source: ReplyError },
    InvalidArguments {},
    MultipleNexuses {},
    Store { source: StoreError },
    StoreSave { kind: ResourceKind, id: String },
    WatchNotFound {},
    WatchResourceNotFound { kind: ResourceKind },
    WatchAlreadyExists {},
    Conflict {},
    Deleting {},
    ReCreateMismatch { id: String, kind: ResourceKind },
    NotReady { kind: ResourceKind, id: String },
    InUse { kind: ResourceKind, id: String },
    AlreadyExists { kind: ResourceKind, id: String },
}

/// Name of the error variant.
pub open spec fn svc_error_name(e: SvcError) -> Seq<char> {
    match e {
        SvcError::BusGetNode { .. } => "BusGetNode"@,
        SvcError::BusGetNodes { .. } => "BusGetNodes"@,
        SvcError::NodeNotOnline { .. } => "NodeNotOnline"@,
        SvcError::NoNodes { .. } => "NoNodes"@,
        SvcError::GrpcConnectTimeout { .. } => "GrpcConnectTimeout"@,
        SvcError::GrpcConnect { .. } => "GrpcConnect"@,
        SvcError::GrpcConnectUri { .. } => "GrpcConnectUri"@,
        SvcError::GrpcRequestError { .. } => "GrpcRequestError"@,
        SvcError::NodeNotFound { .. } => "NodeNotFound"@,
        SvcError::PoolNotFound { .. } => "PoolNotFound"@,
        SvcError::NexusNotFound { .. } => "NexusNotFound"@,
        SvcError::NotFound { .. } => "NotFound"@,
        SvcError::PendingCreation { .. } => "PendingCreation"@,
        SvcError::PendingDeletion { .. } => "PendingDeletion"@,
        SvcError::ChildNotFound { .. } => "ChildNotFound"@,
        SvcError::ChildAlreadyExists { .. } => "ChildAlreadyExists"@,
        SvcError::VolumeNotFound { .. } => "VolumeNotFound"@,
        SvcError::VolumeNotPublished { .. } => "VolumeNotPublished"@,
        SvcError::VolumeAlreadyPublished { .. } => "VolumeAlreadyPublished"@,
        SvcError::ReplicaNotFound { .. } => "ReplicaNotFound"@,
        SvcError::AlreadyShared { .. } => "AlreadyShared"@,
        SvcError::NotShared { .. } => "NotShared"@,
        SvcError::InvalidFilter { .. } => "InvalidFilter"@,
        SvcError::NotEnoughResources { .. } => "NotEnoughResources"@,
        SvcError::JsonRpcDeserialise { .. } => "JsonRpcDeserialise"@,
        SvcError::JsonRpc { .. } => "JsonRpc"@,
        SvcError::Internal { .. } => "Internal"@,
        SvcError::MBusError { .. } => "MBusError"@,
        SvcError::InvalidArguments { .. } => "InvalidArguments"@,
        SvcError::MultipleNexuses { .. } => "MultipleNexuses"@,
        SvcError::Store { .. } => "Store"@,
        SvcError::StoreSave { .. } => "StoreSave"@,
        SvcError::WatchNotFound { .. } => "WatchNotFound"@,
        SvcError::WatchResourceNotFound { .. } => "WatchResourceNotFound"@,
        SvcError::WatchAlreadyExists { .. } => "WatchAlreadyExists"@,
        SvcError::Conflict { .. } => "Conflict"@,
        SvcError::Deleting { .. } => "Deleting"@,
        SvcError::ReCreateMismatch { .. } => "ReCreateMismatch"@,
        SvcError::NotReady { .. } => "NotReady"@,
        SvcError::InUse { .. } => "InUse"@,
        SvcError::AlreadyExists { .. } => "AlreadyExists"@,
    }
}

/// Display text of an error.
pub open spec fn svc_error_message(e: SvcError) -> Seq<char> {
    match e {
        SvcError::BusGetNode { node, .. } => "Failed to get node '"@ + node@ + "' from the node agent"@,
        SvcError::BusGetNodes { .. } => "Failed to get nodes from the node agent"@,
        SvcError::NodeNotOnline { node } => "Node '"@ + node@ + "' is not online"@,
        SvcError::NoNodes {} => "No available online nodes"@,
        SvcError::GrpcConnectTimeout { node_id, endpoint, timeout_ms } => "Timed out after '"@ + decimal_of(timeout_ms as nat) + "ms' attempting to connect to node '"@ + node_id@ + "' via gRPC endpoint '"@ + endpoint@ + "'"@,
        SvcError::GrpcConnect { .. } => "Failed to connect to node via gRPC"@,
        SvcError::GrpcConnectUri { node_id, uri, .. } => "Node '"@ + node_id@ + "' has invalid gRPC URI '"@ + uri@ + "'"@,
        SvcError::GrpcRequestError { resource, request, source } => "gRPC request '"@ + request@ + "' for '"@ + resource_kind_name(resource) + "' failed with '"@ + source.message@ + "'"@,
        SvcError::NodeNotFound { node_id } => "Node '"@ + node_id@ + "' not found"@,
        SvcError::PoolNotFound { pool_id } => "Pool '"@ + pool_id@ + "' not found"@,
        SvcError::NexusNotFound { nexus_id } => "Nexus '"@ + nexus_id@ + "' not found"@,
        SvcError::NotFound { kind, id } => resource_kind_name(kind) + " '"@ + id@ + "' not found"@,
        SvcError::PendingCreation { kind, id } => resource_kind_name(kind) + " '"@ + id@ + "' is still being created.."@,
        SvcError::PendingDeletion { kind, id } => resource_kind_name(kind) + " '"@ + id@ + "' is pending deletion.."@,
        SvcError::ChildNotFound { nexus, child } => "Child '"@ + child@ + "' not found in Nexus '"@ + nexus@ + "'"@,
        SvcError::ChildAlreadyExists { nexus, child } => "Child '"@ + child@ + "' already exists in Nexus '"@ + nexus@ + "'"@,
        SvcError::VolumeNotFound { vol_id } => "Volume '"@ + vol_id@ + "' not found"@,
        SvcError::VolumeNotPublished { vol_id } => "Volume '"@ + vol_id@ + "' not published"@,
        SvcError::VolumeAlreadyPublished { vol_id, node, protocol } => "Volume '"@ + vol_id@ + "' is already published on node '"@ + node@ + "' with protocol '"@ + protocol@ + "'"@,
        SvcError::ReplicaNotFound { replica_id } => "Replica '"@ + replica_id@ + "' not found"@,
        SvcError::AlreadyShared { kind, id, share } => resource_kind_name(kind) + " '"@ + id@ + "' is already shared over "@ + protocol_name(share),
        SvcError::NotShared { kind, id } => resource_kind_name(kind) + " '"@ + id@ + "' is not shared"@,
        SvcError::InvalidFilter { .. } => "Invalid filter value"@,
        SvcError::NotEnoughResources { .. } => "Operation failed due to insufficient resources"@,
        SvcError::JsonRpcDeserialise { .. } => "Failed to deserialise JsonRpc response"@,
        SvcError::JsonRpc { method, params, error } => "Json RPC call failed for method '"@ + method@ + "' with parameters '"@ + params@ + "'. Error "@ + error@,
        SvcError::Internal { details } => "Internal error: "@ + details@,
        SvcError::MBusError { .. } => "Message Bus error"@,
        SvcError::InvalidArguments {} => "Invalid Arguments"@,
        SvcError::MultipleNexuses {} => "Multiple nexuses not supported"@,
        SvcError::Store { source } => "Storage Error: "@ + store_error_message(source),
        SvcError::StoreSave { kind, id } => "Storage Error: "@ + resource_kind_name(kind) + " Config for Resource id "@ + id@ + " not committed to the store"@,
        SvcError::WatchNotFound {} => "Watch Config Not Found"@,
        SvcError::WatchResourceNotFound { kind } => resource_kind_name(kind) + " Resource to be watched does not exist"@,
        SvcError::WatchAlreadyExists {} => "Watch Already Exists"@,
        SvcError::Conflict {} => "Conflicts with existing operation - please retry"@,
        SvcError::Deleting {} => "Pending deletion - please retry"@,
        SvcError::ReCreateMismatch { id, kind } => "Retried creation of resource id "@ + id@ + " kind "@ + resource_kind_name(kind) + " with different parameters"@,
        SvcError::NotReady { kind, id } => resource_kind_name(kind) + " Resource id "@ + id@ + " needs to be reconciled. Please retry"@,
        SvcError::InUse { kind, id } => resource_kind_name(kind) + " Resource id "@ + id@ + " still in still use"@,
        SvcError::AlreadyExists { kind, id } => resource_kind_name(kind) + " Resource id "@ + id@ + " already exists"@,
    }
}

/// Display text of an error followed by that of each underlying cause.
pub open spec fn svc_error_chain(e: SvcError) -> Seq<char> {
    match e {
        SvcError::GrpcConnect { source, .. } => svc_error_message(e) + ": "@ + source@,
        SvcError::GrpcConnectUri { source, .. } => svc_error_message(e) + ": "@ + source@,
        SvcError::NotEnoughResources { source, .. } => svc_error_message(e) + ": "@ + not_enough_message(source),
        SvcError::JsonRpcDeserialise { source, .. } => svc_error_message(e) + ": "@ + source@,
        SvcError::Store { source, .. } => svc_error_message(e) + ": "@ + store_error_message(source),
        _ => svc_error_message(e),
    }
}

/// Reply kind that an error maps to.
pub open spec fn reply_kind_of(e: SvcError) -> ReplyErrorKind {
    match e {
        SvcError::BusGetNode { source, .. } => source.kind,
        SvcError::BusGetNodes { source, .. } => source.kind,
        SvcError::NodeNotOnline { .. } => ReplyErrorKind::FailedPrecondition,
        SvcError::NoNodes { .. } => ReplyErrorKind::FailedPrecondition,
        SvcError::GrpcConnectTimeout { .. } => ReplyErrorKind::Timeout,
        SvcError::GrpcConnect { .. } => ReplyErrorKind::Internal,
        SvcError::GrpcConnectUri { .. } => ReplyErrorKind::Internal,
        SvcError::GrpcRequestError { source, .. } => grpc_reply_kind(source.code),
        SvcError::NodeNotFound { .. } => ReplyErrorKind::NotFound,
        SvcError::PoolNotFound { .. } => ReplyErrorKind::NotFound,
        SvcError::NexusNotFound { .. } => ReplyErrorKind::NotFound,
        SvcError::NotFound { .. } => ReplyErrorKind::NotFound,
        SvcError::PendingCreation { .. } => ReplyErrorKind::FailedPrecondition,
        SvcError::PendingDeletion { .. } => ReplyErrorKind::FailedPrecondition,
        SvcError::ChildNotFound { .. } => ReplyErrorKind::NotFound,
        SvcError::ChildAlreadyExists { .. } => ReplyErrorKind::AlreadyExists,
        SvcError::VolumeNotFound { .. } => ReplyErrorKind::NotFound,
        SvcError::VolumeNotPublished { .. } => ReplyErrorKind::NotPublished,
        SvcError::VolumeAlreadyPublished { .. } => ReplyErrorKind::AlreadyPublished,
        SvcError::ReplicaNotFound { .. } => ReplyErrorKind::NotFound,
        SvcError::AlreadyShared { .. } => ReplyErrorKind::AlreadyShared,
        SvcError::NotShared { .. } => ReplyErrorKind::NotShared,
        SvcError::InvalidFilter { .. } => ReplyErrorKind::Internal,
        SvcError::NotEnoughResources { .. } => ReplyErrorKind::ResourceExhausted,
        SvcError::JsonRpcDeserialise { .. } => ReplyErrorKind::Internal,
        SvcError::JsonRpc { .. } => ReplyErrorKind::Internal,
        SvcError::Internal { .. } => ReplyErrorKind::Internal,
        SvcError::MBusError { source, .. } => source.kind,
        SvcError::InvalidArguments { .. } => ReplyErrorKind::InvalidArgument,
        SvcError::MultipleNexuses { .. } => ReplyErrorKind::InvalidArgument,
        SvcError::Store { .. } => ReplyErrorKind::FailedPersist,
        SvcError::StoreSave { .. } => ReplyErrorKind::FailedPersist,
        SvcError::WatchNotFound { .. } => ReplyErrorKind::NotFound,
        SvcError::WatchResourceNotFound { .. } => ReplyErrorKind::NotFound,
        SvcError::WatchAlreadyExists { .. } => ReplyErrorKind::AlreadyExists,
        SvcError::Conflict { .. } => ReplyErrorKind::Conflict,
        SvcError::Deleting { .. } => ReplyErrorKind::Deleting,
        SvcError::ReCreateMismatch { .. } => ReplyErrorKind::Conflict,
        SvcError::NotReady { .. } => ReplyErrorKind::Unavailable,
        SvcError::InUse { .. } => ReplyErrorKind::Conflict,
        SvcError::AlreadyExists { .. } => ReplyErrorKind::AlreadyExists,
    }
}

/// Resource kind that the reply to an error names.
pub open spec fn reply_resource_of(e: SvcError) -> ResourceKind {
    match e {
        SvcError::BusGetNode { source, .. } => source.resource,
        SvcError::BusGetNodes { source, .. } => source.resource,
        SvcError::NodeNotOnline { .. } => ResourceKind::Node,
        SvcError::NoNodes { .. } => ResourceKind::Node,
        SvcError::GrpcConnectTimeout { .. } => ResourceKind::Unknown,
        SvcError::GrpcConnect { .. } => ResourceKind::Unknown,
        SvcError::GrpcConnectUri { .. } => ResourceKind::Unknown,
        SvcError::GrpcRequestError { resource, .. } => resource,
        SvcError::NodeNotFound { .. } => ResourceKind::Node,
        SvcError::PoolNotFound { .. } => ResourceKind::Pool,
        SvcError::NexusNotFound { .. } => ResourceKind::Nexus,
        SvcError::NotFound { kind, .. } => kind,
        SvcError::PendingCreation { kind, .. } => kind,
        SvcError::PendingDeletion { kind, .. } => kind,
        SvcError::ChildNotFound { .. } => ResourceKind::Child,
        SvcError::ChildAlreadyExists { .. } => ResourceKind::Child,
        SvcError::VolumeNotFound { .. } => ResourceKind::Volume,
        SvcError::VolumeNotPublished { .. } => ResourceKind::Volume,
        SvcError::VolumeAlreadyPublished { .. } => ResourceKind::Volume,
        SvcError::ReplicaNotFound { .. } => ResourceKind::Replica,
        SvcError::AlreadyShared { kind, .. } => kind,
        SvcError::NotShared { kind, .. } => kind,
        SvcError::InvalidFilter { .. } => ResourceKind::Unknown,
        SvcError::NotEnoughResources { .. } => ResourceKind::Unknown,
        SvcError::JsonRpcDeserialise { .. } => ResourceKind::JsonGrpc,
        SvcError::JsonRpc { .. } => ResourceKind::JsonGrpc,
        SvcError::Internal { .. } => ResourceKind::Unknown,
        SvcError::MBusError { source, .. } => source.resource,
        SvcError::InvalidArguments { .. } => ResourceKind::Unknown,
        SvcError::MultipleNexuses { .. } => ResourceKind::Unknown,
        SvcError::Store { .. } => ResourceKind::Unknown,
        SvcError::StoreSave { kind, .. } => kind,
        SvcError::WatchNotFound { .. } => ResourceKind::Watch,
        SvcError::WatchResourceNotFound { kind, .. } => kind,
        SvcError::WatchAlreadyExists { .. } => ResourceKind::Watch,
        SvcError::Conflict { .. } => ResourceKind::Unknown,
        SvcError::Deleting { .. } => ResourceKind::Unknown,
        SvcError::ReCreateMismatch { kind, .. } => kind,
        SvcError::NotReady { kind, .. } => kind,
        SvcError::InUse { kind, .. } => kind,
        SvcError::AlreadyExists { kind, .. } => kind,
    }
}

/// Source text of the reply to an error.
pub open spec fn reply_source_of(e: SvcError) -> Seq<char> {
    match e {
        SvcError::BusGetNode { source, .. } => source.source@,
        SvcError::BusGetNodes { source, .. } => source.source@,
        SvcError::GrpcRequestError { .. } => "SvcError::GrpcRequestError"@,
        SvcError::MBusError { source, .. } => source.source@,
        _ => svc_error_name(e),
    }
}

/// Extra detail of the reply to an error.
pub open spec fn reply_extra_of(e: SvcError) -> Seq<char> {
    match e {
        SvcError::BusGetNode { source, .. } => source.extra@,
        SvcError::BusGetNodes { source, .. } => source.extra@,
        SvcError::GrpcConnect { source } => source@,
        SvcError::GrpcRequestError { request, source, .. } => request@ + "::"@ + source.message@,
        SvcError::MBusError { source, .. } => source.extra@,
        SvcError::InUse { id, .. } => "id: "@ + id@,
        SvcError::AlreadyExists { id, .. } => "id: "@ + id@,
        _ => svc_error_chain(e),
    }
}
impl SvcError {
    /// Name of the error variant.
    pub fn name(&self) -> (r: &'static str)
        ensures
            r@ == svc_error_name(*self),
    {
        match self {
            SvcError::BusGetNode { .. } => "BusGetNode",
            SvcError::BusGetNodes { .. } => "BusGetNodes",
            SvcError::NodeNotOnline { .. } => "NodeNotOnline",
            SvcError::NoNodes { .. } => "NoNodes",
            SvcError::GrpcConnectTimeout { .. } => "GrpcConnectTimeout",
            SvcError::GrpcConnect { .. } => "GrpcConnect",
            SvcError::GrpcConnectUri { .. } => "GrpcConnectUri",
            SvcError::GrpcRequestError { .. } => "GrpcRequestError",
            SvcError::NodeNotFound { .. } => "NodeNotFound",
            SvcError::PoolNotFound { .. } => "PoolNotFound",
            SvcError::NexusNotFound { .. } => "NexusNotFound",
            SvcError::NotFound { .. } => "NotFound",
            SvcError::PendingCreation { .. } => "PendingCreation",
            SvcError::PendingDeletion { .. } => "PendingDeletion",
            SvcError::ChildNotFound { .. } => "ChildNotFound",
            SvcError::ChildAlreadyExists { .. } => "ChildAlreadyExists",
            SvcError::VolumeNotFound { .. } => "VolumeNotFound",
            SvcError::VolumeNotPublished { .. } => "VolumeNotPublished",
            SvcError::VolumeAlreadyPublished { .. } => "VolumeAlreadyPublished",
            SvcError::ReplicaNotFound { .. } => "ReplicaNotFound",
            SvcError::AlreadyShared { .. } => "AlreadyShared",
            SvcError::NotShared { .. } => "NotShared",
            SvcError::InvalidFilter { .. } => "InvalidFilter",
            SvcError::NotEnoughResources { .. } => "NotEnoughResources",
            SvcError::JsonRpcDeserialise { .. } => "JsonRpcDeserialise",
            SvcError::JsonRpc { .. } => "JsonRpc",
            SvcError::Internal { .. } => "Internal",
            SvcError::MBusError { .. } => "MBusError",
            SvcError::InvalidArguments { .. } => "InvalidArguments",
            SvcError::MultipleNexuses { .. } => "MultipleNexuses",
            SvcError::Store { .. } => "Store",
            SvcError::StoreSave { .. } => "StoreSave",
            SvcError::WatchNotFound { .. } => "WatchNotFound",
            SvcError::WatchResourceNotFound { .. } => "WatchResourceNotFound",
            SvcError::WatchAlreadyExists { .. } => "WatchAlreadyExists",
            SvcError::Conflict { .. } => "Conflict",
            SvcError::Deleting { .. } => "Deleting",
            SvcError::ReCreateMismatch { .. } => "ReCreateMismatch",
            SvcError::NotReady { .. } => "NotReady",
            SvcError::InUse { .. } => "InUse",
            SvcError::AlreadyExists { .. } => "AlreadyExists",
        }
    }

    /// Display text of the error.
    pub fn message(&self) -> (r: String)
        ensures
            r@ == svc_error_message(*self),
    {
        match self {
            SvcError::BusGetNode { node, .. } => {
                let mut s = String::from_str("Failed to get node '");
                s.append(node.as_str());
                s.append("' from the node agent");
                s
            },
            SvcError::BusGetNodes { .. } => {
                let mut s = String::from_str("Failed to get nodes from the node agent");
                s
            },
            SvcError::NodeNotOnline { node } => {
                let mut s = String::from_str("Node '");
                s.append(node.as_str());
                s.append("' is not online");
                s
            },
            SvcError::NoNodes {} => {
                let mut s = String::from_str("No available online nodes");
                s
            },
            SvcError::GrpcConnectTimeout { node_id, endpoint, timeout_ms } => {
                let mut s = String::from_str("Timed out after '");
                let t1 = decimal(*timeout_ms);
                s.append(t1.as_str());
                s.append("ms' attempting to connect to node '");
                s.append(node_id.as_str());
                s.append("' via gRPC endpoint '");
                s.append(endpoint.as_str());
                s.append("'");
                s
            },
            SvcError::GrpcConnect { .. } => {
                let mut s = String::from_str("Failed to connect to node via gRPC");
                s
            },
            SvcError::GrpcConnectUri { node_id, uri, .. } => {
                let mut s = String::from_str("Node '");
                s.append(node_id.as_str());
                s.append("' has invalid gRPC URI '");
                s.append(uri.as_str());
                s.append("'");
                s
            },
            SvcError::GrpcRequestError { resource, request, source } => {
                let mut s = String::from_str("gRPC request '");
                s.append(request.as_str());
                s.append("' for '");
                s.append(resource.name());
                s.append("' failed with '");
                s.append(source.message.as_str());
                s.append("'");
                s
            },
            SvcError::NodeNotFound { node_id } => {
                let mut s = String::from_str("Node '");
                s.append(node_id.as_str());
                s.append("' not found");
                s
            },
            SvcError::PoolNotFound { pool_id } => {
                let mut s = String::from_str("Pool '");
                s.append(pool_id.as_str());
                s.append("' not found");
                s
            },
            SvcError::NexusNotFound { nexus_id } => {
                let mut s = String::from_str("Nexus '");
                s.append(nexus_id.as_str());
                s.append("' not found");
                s
            },
            SvcError::NotFound { kind, id } => {
                let mut s = String::from_str(kind.name());
                s.append(" '");
                s.append(id.as_str());
                s.append("' not found");
                s
            },
            SvcError::PendingCreation { kind, id } => {
                let mut s = String::from_str(kind.name());
                s.append(" '");
                s.append(id.as_str());
                s.append("' is still being created..");
                s
            },
            SvcError::PendingDeletion { kind, id } => {
                let mut s = String::from_str(kind.name());
                s.append(" '");
                s.append(id.as_str());
                s.append("' is pending deletion..");
                s
            },
            SvcError::ChildNotFound { nexus, child } => {
                let mut s = String::from_str("Child '");
                s.append(child.as_str());
                s.append("' not found in Nexus '");
                s.append(nexus.as_str());
                s.append("'");
                s
            },
            SvcError::ChildAlreadyExists { nexus, child } => {
                let mut s = String::from_str("Child '");
                s.append(child.as_str());
                s.append("' already exists in Nexus '");
                s.append(nexus.as_str());
                s.append("'");
                s
            },
            SvcError::VolumeNotFound { vol_id } => {
                let mut s = String::from_str("Volume '");
                s.append(vol_id.as_str());
                s.append("' not found");
                s
            },
            SvcError::VolumeNotPublished { vol_id } => {
                let mut s = String::from_str("Volume '");
                s.append(vol_id.as_str());
                s.append("' not published");
                s
            },
            SvcError::VolumeAlreadyPublished { vol_id, node, protocol } => {
                let mut s = String::from_str("Volume '");
                s.append(vol_id.as_str());
                s.append("' is already published on node '");
                s.append(node.as_str());
                s.append("' with protocol '");
                s.append(protocol.as_str());
                s.append("'");
                s
            },
            SvcError::ReplicaNotFound { replica_id } => {
                let mut s = String::from_str("Replica '");
                s.append(replica_id.as_str());
                s.append("' not found");
                s
            },
            SvcError::AlreadyShared { kind, id, share } => {
                let mut s = String::from_str(kind.name());
                s.append(" '");
                s.append(id.as_str());
                s.append("' is already shared over ");
                s.append(share.name());
                s
            },
            SvcError::NotShared { kind, id } => {
                let mut s = String::from_str(kind.name());
                s.append(" '");
                s.append(id.as_str());
                s.append("' is not shared");
                s
            },
            SvcError::InvalidFilter { .. } => {
                let mut s = String::from_str("Invalid filter value");
                s
            },
            SvcError::NotEnoughResources { .. } => {
                let mut s = String::from_str("Operation failed due to insufficient resources");
                s
            },
            SvcError::JsonRpcDeserialise { .. } => {
                let mut s = String::from_str("Failed to deserialise JsonRpc response");
                s
            },
            SvcError::JsonRpc { method, params, error } => {
                let mut s = String::from_str("Json RPC call failed for method '");
                s.append(method.as_str());
                s.append("' with parameters '");
                s.append(params.as_str());
                s.append("'. Error ");
                s.append(error.as_str());
                s
            },
            SvcError::Internal { details } => {
                let mut s = String::from_str("Internal error: ");
                s.append(details.as_str());
                s
            },
            SvcError::MBusError { .. } => {
                let mut s = String::from_str("Message Bus error");
                s
            },
            SvcError::InvalidArguments {} => {
                let mut s = String::from_str("Invalid Arguments");
                s
            },
            SvcError::MultipleNexuses {} => {
                let mut s = String::from_str("Multiple nexuses not supported");
                s
            },
            SvcError::Store { source } => {
                let mut s = String::from_str("Storage Error: ");
                let t1 = source.message();
                s.append(t1.as_str());
                s
            },
            SvcError::StoreSave { kind, id } => {
                let mut s = String::from_str("Storage Error: ");
                s.append(kind.name());
                s.append(" Config for Resource id ");
                s.append(id.as_str());
                s.append(" not committed to the store");
                s
            },
            SvcError::WatchNotFound {} => {
                let mut s = String::from_str("Watch Config Not Found");
                s
            },
            SvcError::WatchResourceNotFound { kind } => {
                let mut s = String::from_str(kind.name());
                s.append(" Resource to be watched does not exist");
                s
            },
            SvcError::WatchAlreadyExists {} => {
                let mut s = String::from_str("Watch Already Exists");
                s
            },
            SvcError::Conflict {} => {
                let mut s = String::from_str("Conflicts with existing operation - please retry");
                s
            },
            SvcError::Deleting {} => {
                let mut s = String::from_str("Pending deletion - please retry");
                s
            },
            SvcError::ReCreateMismatch { id, kind } => {
                let mut s = String::from_str("Retried creation of resource id ");
                s.append(id.as_str());
                s.append(" kind ");
                s.append(kind.name());
                s.append(" with different parameters");
                s
            },
            SvcError::NotReady { kind, id } => {
                let mut s = String::from_str(kind.name());
                s.append(" Resource id ");
                s.append(id.as_str());
                s.append(" needs to be reconciled. Please retry");
                s
            },
            SvcError::InUse { kind, id } => {
                let mut s = String::from_str(kind.name());
                s.append(" Resource id ");
                s.append(id.as_str());
                s.append(" still in still use");
                s
            },
            SvcError::AlreadyExists { kind, id } => {
                let mut s = String::from_str(kind.name());
                s.append(" Resource id ");
                s.append(id.as_str());
                s.append(" already exists");
                s
            },
        }
    }

    /// Display text of the error followed by that of each underlying cause.
    pub fn full_string(&self) -> (r: String)
        ensures
            r@ == svc_error_chain(*self),
    {
        let mut s = self.message();
        match self {
            SvcError::GrpcConnect { source, .. } => {
                s.append(": ");
                s.append(source.as_str());
            },
            SvcError::GrpcConnectUri { source, .. } => {
                s.append(": ");
                s.append(source.as_str());
            },
            SvcError::NotEnoughResources { source, .. } => {
                s.append(": ");
                let c = source.message();
                s.append(c.as_str());
            },
            SvcError::JsonRpcDeserialise { source, .. } => {
                s.append(": ");
                s.append(source.as_str());
            },
            SvcError::Store { source, .. } => {
                s.append(": ");
                let c = source.message();
                s.append(c.as_str());
            },
            _ => {},
        }
        s
    }
}

/// Maps an error to the reply sent back over the message bus.
pub fn reply_error(error: SvcError) -> (r: ReplyError)
    ensures
        r.kind == reply_kind_of(error),
        r.resource == reply_resource_of(error),
        r.source@ == reply_source_of(error),
        r.extra@ == reply_extra_of(error),
{
    let desc = error.name();
    let error_str = error.full_string();
    match error {
        SvcError::BusGetNode { source, .. } => source,
        SvcError::BusGetNodes { source, .. } => source,
        SvcError::NodeNotOnline { .. } => ReplyError {
            kind: ReplyErrorKind::FailedPrecondition,
            resource: ResourceKind::Node,
            source: String::from_str(desc),
            extra: error_str,
        },
        SvcError::NoNodes { .. } => ReplyError {
            kind: ReplyErrorKind::FailedPrecondition,
            resource: ResourceKind::Node,
            source: String::from_str(desc),
            extra: error_str,
        },
        SvcError::GrpcConnectTimeout { .. } => ReplyError {
            kind: ReplyErrorKind::Timeout,
            resource: ResourceKind::Unknown,
            source: String::from_str(desc),
            extra: error_str,
        },
        SvcError::GrpcConnect { source } => ReplyError {
            kind: ReplyErrorKind::Internal,
            resource: ResourceKind::Unknown,
            source: String::from_str(desc),
            extra: source,
        },
        SvcError::GrpcConnectUri { .. } => ReplyError {
            kind: ReplyErrorKind::Internal,
            resource: ResourceKind::Unknown,
            source: String::from_str(desc),
            extra: error_str,
        },
        SvcError::GrpcRequestError { .. } => grpc_to_reply_error(error),
        SvcError::NodeNotFound { .. } => ReplyError {
            kind: ReplyErrorKind::NotFound,
            resource: ResourceKind::Node,
            source: String::from_str(desc),
            extra: error_str,
        },
        SvcError::PoolNotFound { .. } => ReplyError {
            kind: ReplyErrorKind::NotFound,
            resource: ResourceKind::Pool,
            source: String::from_str(desc),
            extra: error_str,
        },
        SvcError::NexusNotFound { .. } => ReplyError {
            kind: ReplyErrorKind::NotFound,
            resource: ResourceKind::Nexus,
            source: String::from_str(desc),
            extra: error_str,
        },
        SvcError::NotFound { kind, .. } => ReplyError {
            kind: ReplyErrorKind::NotFound,
            resource: kind,
            source: String::from_str(desc),
            extra: error_str,
        },
        SvcError::PendingCreation { kind, .. } => ReplyError {
            kind: ReplyErrorKind::FailedPrecondition,
            resource: kind,
            source: String::from_str(desc),
            extra: error_str,
        },
        SvcError::PendingDeletion { kind, .. } => ReplyError {
            kind: ReplyErrorKind::FailedPrecondition,
            resource: kind,
            source: String::from_str(desc),
            extra: error_str,
        },
        SvcError::ChildNotFound { .. } => ReplyError {
            kind: ReplyErrorKind::NotFound,
            resource: ResourceKind::Child,
            source: String::from_str(desc),
            extra: error_str,
        },
        SvcError::ChildAlreadyExists { .. } => ReplyError {
            kind: ReplyErrorKind::AlreadyExists,
            resource: ResourceKind::Child,
            source: String::from_str(desc),
            extra: error_str,
        },
        SvcError::VolumeNotFound { .. } => ReplyError {
            kind: ReplyErrorKind::NotFound,
            resource: ResourceKind::Volume,
            source: String::from_str(desc),
            extra: error_str,
        },
        SvcError::VolumeNotPublished { .. } => ReplyError {
            kind: ReplyErrorKind::NotPublished,
            resource: ResourceKind::Volume,
            source: String::from_str(desc),
            extra: error_str,
        },
        SvcError::VolumeAlreadyPublished { .. } => ReplyError {
            kind: ReplyErrorKind::AlreadyPublished,
            resource: ResourceKind::Volume,
            source: String::from_str(desc),
            extra: error_str,
        },
        SvcError::ReplicaNotFound { .. } => ReplyError {
            kind: ReplyErrorKind::NotFound,
            resource: ResourceKind::Replica,
            source: String::from_str(desc),
            extra: error_str,
        },
        SvcError::AlreadyShared { kind, .. } => ReplyError {
            kind: ReplyErrorKind::AlreadyShared,
            resource: kind,
            source: String::from_str(desc),
            extra: error_str,
        },
        SvcError::NotShared { kind, .. } => ReplyError {
            kind: ReplyErrorKind::NotShared,
            resource: kind,
            source: String::from_str(desc),
            extra: error_str,
        },
        SvcError::InvalidFilter { .. } => ReplyError {
            kind: ReplyErrorKind::Internal,
            resource: ResourceKind::Unknown,
            source: String::from_str(desc),
            extra: error_str,
        },
        SvcError::NotEnoughResources { .. } => ReplyError {
            kind: ReplyErrorKind::ResourceExhausted,
            resource: ResourceKind::Unknown,
            source: String::from_str(desc),
            extra: error_str,
        },
        SvcError::JsonRpcDeserialise { .. } => ReplyError {
            kind: ReplyErrorKind::Internal,
            resource: ResourceKind::JsonGrpc,
            source: String::from_str(desc),
            extra: error_str,
        },
        SvcError::JsonRpc { .. } => ReplyError {
            kind: ReplyErrorKind::Internal,
            resource: ResourceKind::JsonGrpc,
            source: String::from_str(desc),
            extra: error_str,
        },
        SvcError::Internal { .. } => ReplyError {
            kind: ReplyErrorKind::Internal,
            resource: ResourceKind::Unknown,
            source: String::from_str(desc),
            extra: error_str,
        },
        SvcError::MBusError { source, .. } => source,
        SvcError::InvalidArguments { .. } => ReplyError {
            kind: ReplyErrorKind::InvalidArgument,
            resource: ResourceKind::Unknown,
            source: String::from_str(desc),
            extra: error_str,
        },
        SvcError::MultipleNexuses { .. } => ReplyError {
            kind: ReplyErrorKind::InvalidArgument,
            resource: ResourceKind::Unknown,
            source: String::from_str(desc),
            extra: error_str,
        },
        SvcError::Store { .. } => ReplyError {
            kind: ReplyErrorKind::FailedPersist,
            resource: ResourceKind::Unknown,
            source: String::from_str(desc),
            extra: error_str,
        },
        SvcError::StoreSave { kind, .. } => ReplyError {
            kind: ReplyErrorKind::FailedPersist,
            resource: kind,
            source: String::from_str(desc),
            extra: error_str,
        },
        SvcError::WatchNotFound { .. } => ReplyError {
            kind: ReplyErrorKind::NotFound,
            resource: ResourceKind::Watch,
            source: String::from_str(desc),
            extra: error_str,
        },
        SvcError::WatchResourceNotFound { kind, .. } => ReplyError {
            kind: ReplyErrorKind::NotFound,
            resource: kind,
            source: String::from_str(desc),
            extra: error_str,
        },
        SvcError::WatchAlreadyExists { .. } => ReplyError {
            kind: ReplyErrorKind::AlreadyExists,
            resource: ResourceKind::Watch,
            source: String::from_str(desc),
            extra: error_str,
        },
        SvcError::Conflict { .. } => ReplyError {
            kind: ReplyErrorKind::Conflict,
            resource: ResourceKind::Unknown,
            source: String::from_str(desc),
            extra: error_str,
        },
        SvcError::Deleting { .. } => ReplyError {
            kind: ReplyErrorKind::Deleting,
            resource: ResourceKind::Unknown,
            source: String::from_str(desc),
            extra: error_str,
        },
        SvcError::ReCreateMismatch { kind, .. } => ReplyError {
            kind: ReplyErrorKind::Conflict,
            resource: kind,
            source: String::from_str(desc),
            extra: error_str,
        },
        SvcError::NotReady { kind, .. } => ReplyError {
            kind: ReplyErrorKind::Unavailable,
            resource: kind,
            source: String::from_str(desc),
            extra: error_str,
        },
        SvcError::InUse { kind, id } => {
            let mut extra = String::from_str("id: ");
            extra.append(id.as_str());
            ReplyError { kind: ReplyErrorKind::Conflict, resource: kind, source: String::from_str(desc), extra }
        },
        SvcError::AlreadyExists { kind, id } => {
            let mut extra = String::from_str("id: ");
            extra.append(id.as_str());
            ReplyError { kind: ReplyErrorKind::AlreadyExists, resource: kind, source: String::from_str(desc), extra }
        },
    }
}

/// Maps a failed gRPC request to its reply: the kind follows the status code.
pub fn grpc_to_reply_error(error: SvcError) -> (r: ReplyError)
    requires
        error is GrpcRequestError,
    ensures
        r.kind == reply_kind_of(error),
        r.resource == reply_resource_of(error),
        r.source@ == reply_source_of(error),
        r.extra@ == reply_extra_of(error),
{
    match error {
        SvcError::GrpcRequestError { source, request, resource } => {
            let kind = match source.code {
                GrpcCode::Success => ReplyErrorKind::Internal,
                GrpcCode::Cancelled => ReplyErrorKind::Internal,
                GrpcCode::Unknown => ReplyErrorKind::Internal,
                GrpcCode::InvalidArgument => ReplyErrorKind::InvalidArgument,
                GrpcCode::DeadlineExceeded => ReplyErrorKind::DeadlineExceeded,
                GrpcCode::NotFound => ReplyErrorKind::NotFound,
                GrpcCode::AlreadyExists => ReplyErrorKind::AlreadyExists,
                GrpcCode::PermissionDenied => ReplyErrorKind::PermissionDenied,
                GrpcCode::ResourceExhausted => ReplyErrorKind::ResourceExhausted,
                GrpcCode::FailedPrecondition => ReplyErrorKind::FailedPrecondition,
                GrpcCode::Aborted => ReplyErrorKind::Aborted,
                GrpcCode::OutOfRange => ReplyErrorKind::OutOfRange,
                GrpcCode::Unimplemented => ReplyErrorKind::Unimplemented,
                GrpcCode::Internal => ReplyErrorKind::Internal,
                GrpcCode::Unavailable => ReplyErrorKind::Unavailable,
                GrpcCode::DataLoss => ReplyErrorKind::Internal,
                GrpcCode::Unauthenticated => ReplyErrorKind::Unauthenticated,
            };
            let mut extra = request;
            extra.append("::");
            extra.append(source.message.as_str());
            ReplyError {
                kind,
                resource,
                source: String::from_str("SvcError::GrpcRequestError"),
                extra,
            }
        },
        _ => {
            proof {
                assert(false);
            }
            ReplyError {
                kind: ReplyErrorKind::Internal,
                resource: ResourceKind::Unknown,
                source: String::new(),
                extra: String::new(),
            }
        },
    }
}

impl From<SvcError> for ReplyError {
    fn from(error: SvcError) -> (r: ReplyError)
        ensures
            r.kind == reply_kind_of(error),
            r.resource == reply_resource_of(error),
            r.source@ == reply_source_of(error),
            r.extra@ == reply_extra_of(error),
    {
        reply_error(error)
    }
}

/// The reply's text fields are stated by views in the `from` contract above, so
/// conversion is not described by a single spec value.
impl vstd::std_specs::convert::FromSpecImpl<SvcError> for ReplyError {
    open spec fn obeys_from_spec() -> bool {
        false
    }

    open spec fn from_spec(v: SvcError) -> ReplyError {
        arbitrary()
    }
}

impl From<StoreError> for SvcError {
    fn from(source: StoreError) -> (r: SvcError)
        ensures
            r == (SvcError::Store { source }),
    {
        SvcError::Store { source }
    }
}

impl vstd::std_specs::convert::FromSpecImpl<StoreError> for SvcError {
    open spec fn obeys_from_spec() -> bool {
        true
    }

    open spec fn from_spec(v: StoreError) -> SvcError {
        SvcError::Store { source: v }
    }
}

impl From<NotEnough> for SvcError {
    fn from(source: NotEnough) -> (r: SvcError)
        ensures
            r == (SvcError::NotEnoughResources { source }),
    {
        SvcError::NotEnoughResources { source }
    }
}

impl vstd::std_specs::convert::FromSpecImpl<NotEnough> for SvcError {
    open spec fn obeys_from_spec() -> bool {
        true
    }

    open spec fn from_spec(v: NotEnough) -> SvcError {
        SvcError::NotEnoughResources { source: v }
    }
}

} // verus!
