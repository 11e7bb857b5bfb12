use std::sync::Arc;
use std::time::Duration;

use core_agent::errors::{
    grpc_to_reply_error, reply_error, GrpcCode, GrpcStatus, NotEnough, ReplyError,
    ReplyErrorKind, ResourceKind, SvcError,
};
use core_agent::grpc::{grpc_uri, GrpcContext, NodeCommsTimeout};
use core_agent::message_bus::{Protocol, ReplicaState};
use core_agent::nexus::NexusSpecKey;
use core_agent::replica::ReplicaSpecKey;
use core_agent::store::{get_key, key_prefix, StorableObjectType, StoreError};
use core_agent::text::decimal;

#[test]
fn in_use_maps_to_conflict_with_id() {
    let reply = reply_error(SvcError::InUse { kind: ResourceKind::Replica, id: "r1".to_string() });
    assert_eq!(reply.kind, ReplyErrorKind::Conflict);
    assert_eq!(reply.resource, ResourceKind::Replica);
    assert_eq!(reply.source, "InUse");
    assert_eq!(reply.extra, "id: r1");
}

#[test]
fn store_save_maps_to_failed_persist() {
    let reply = ReplyError::from(SvcError::StoreSave {
        kind: ResourceKind::Nexus,
        id: "x1".to_string(),
    });
    assert_eq!(reply.kind, ReplyErrorKind::FailedPersist);
    assert_eq!(reply.resource, ResourceKind::Nexus);
    assert_eq!(
        reply.extra,
        "Storage Error: Nexus Config for Resource id x1 not committed to the store"
    );
}

#[test]
fn settled_state_errors_map_to_their_kinds() {
    let cases = vec![
        (SvcError::Conflict {}, ReplyErrorKind::Conflict, ResourceKind::Unknown),
        (SvcError::Deleting {}, ReplyErrorKind::Deleting, ResourceKind::Unknown),
        (
            SvcError::ReCreateMismatch { id: "r1".to_string(), kind: ResourceKind::Replica },
            ReplyErrorKind::Conflict,
            ResourceKind::Replica,
        ),
        (
            SvcError::NotReady { kind: ResourceKind::Nexus, id: "x1".to_string() },
            ReplyErrorKind::Unavailable,
            ResourceKind::Nexus,
        ),
        (
            SvcError::PendingCreation { kind: ResourceKind::Replica, id: "r1".to_string() },
            ReplyErrorKind::FailedPrecondition,
            ResourceKind::Replica,
        ),
        (
            SvcError::AlreadyExists { kind: ResourceKind::Replica, id: "r1".to_string() },
            ReplyErrorKind::AlreadyExists,
            ResourceKind::Replica,
        ),
        (
            SvcError::NodeNotFound { node_id: "n1".to_string() },
            ReplyErrorKind::NotFound,
            ResourceKind::Node,
        ),
        (SvcError::NoNodes {}, ReplyErrorKind::FailedPrecondition, ResourceKind::Node),
        (
            SvcError::NotEnoughResources { source: NotEnough::OfPools { have: 1, need: 3 } },
            ReplyErrorKind::ResourceExhausted,
            ResourceKind::Unknown,
        ),
        (
            SvcError::ChildNotFound { nexus: "x1".to_string(), child: "c".to_string() },
            ReplyErrorKind::NotFound,
            ResourceKind::Child,
        ),
    ];
    for (error, kind, resource) in cases {
        let reply = reply_error(error);
        assert_eq!(reply.kind, kind);
        assert_eq!(reply.resource, resource);
    }
}

#[test]
fn bus_errors_pass_through() {
    let inner = ReplyError {
        kind: ReplyErrorKind::Timeout,
        resource: ResourceKind::Node,
        source: "bus".to_string(),
        extra: "late".to_string(),
    };
    let reply = reply_error(SvcError::BusGetNodes { source: inner.clone() });
    assert_eq!(reply, inner);
}

#[test]
fn grpc_codes_map_to_reply_kinds() {
    let cases = vec![
        (GrpcCode::Cancelled, ReplyErrorKind::Internal),
        (GrpcCode::Unknown, ReplyErrorKind::Internal),
        (GrpcCode::InvalidArgument, ReplyErrorKind::InvalidArgument),
        (GrpcCode::DeadlineExceeded, ReplyErrorKind::DeadlineExceeded),
        (GrpcCode::NotFound, ReplyErrorKind::NotFound),
        (GrpcCode::AlreadyExists, ReplyErrorKind::AlreadyExists),
        (GrpcCode::PermissionDenied, ReplyErrorKind::PermissionDenied),
        (GrpcCode::ResourceExhausted, ReplyErrorKind::ResourceExhausted),
        (GrpcCode::FailedPrecondition, ReplyErrorKind::FailedPrecondition),
        (GrpcCode::Aborted, ReplyErrorKind::Aborted),
        (GrpcCode::OutOfRange, ReplyErrorKind::OutOfRange),
        (GrpcCode::Unimplemented, ReplyErrorKind::Unimplemented),
        (GrpcCode::Internal, ReplyErrorKind::Internal),
        (GrpcCode::Unavailable, ReplyErrorKind::Unavailable),
        (GrpcCode::DataLoss, ReplyErrorKind::Internal),
        (GrpcCode::Unauthenticated, ReplyErrorKind::Unauthenticated),
    ];
    for (code, kind) in cases {
        let reply = grpc_to_reply_error(SvcError::GrpcRequestError {
            resource: ResourceKind::Replica,
            request: "create_replica".to_string(),
            source: GrpcStatus { code, message: "boom".to_string() },
        });
        assert_eq!(reply.kind, kind);
        assert_eq!(reply.resource, ResourceKind::Replica);
        assert_eq!(reply.source, "SvcError::GrpcRequestError");
        assert_eq!(reply.extra, "create_replica::boom");
    }
}

#[test]
fn error_messages() {
    let e = SvcError::NodeNotOnline { node: "n1".to_string() };
    assert_eq!(e.message(), "Node 'n1' is not online");
    let e = SvcError::NotEnoughResources { source: NotEnough::OfReplicas { have: 2, need: 30 } };
    assert_eq!(
        e.full_string(),
        "Operation failed due to insufficient resources: Not enough replicas available, 2/30"
    );
    let e = SvcError::AlreadyShared {
        kind: ResourceKind::Nexus,
        id: "x1".to_string(),
        share: Protocol::Nvmf,
    };
    assert_eq!(e.message(), "Nexus 'x1' is already shared over nvmf");
    let e = SvcError::Store {
        source: StoreError::Timeout { operation: "put".to_string(), timeout_ms: 1500 },
    };
    assert_eq!(e.message(), "Storage Error: Timed out during put operation after 1500ms");
}

#[test]
fn decimal_text() {
    assert_eq!(decimal(0), "0");
    assert_eq!(decimal(7), "7");
    assert_eq!(decimal(1048576), "1048576");
    assert_eq!(decimal(u64::MAX), "18446744073709551615");
}

#[test]
fn store_keys() {
    assert_eq!(get_key(&ReplicaSpecKey("r1".to_string())), "ReplicaSpec/r1");
    assert_eq!(NexusSpecKey("x1".to_string()).key(), "NexusSpec/x1");
    assert_eq!(key_prefix(StorableObjectType::VolumeSpec), "VolumeSpec");
    assert_eq!(StorableObjectType::WatchConfig.to_string(), "WatchConfig");
}

#[test]
fn replica_state_from_wire_code() {
    assert_eq!(ReplicaState::from(1), ReplicaState::Online);
    assert_eq!(ReplicaState::from(2), ReplicaState::Degraded);
    assert_eq!(ReplicaState::from(3), ReplicaState::Faulted);
    assert_eq!(ReplicaState::from(0), ReplicaState::Unknown);
    assert_eq!(ReplicaState::from(42), ReplicaState::Unknown);
}

fn timeouts() -> NodeCommsTimeout {
    NodeCommsTimeout { connect: Duration::from_secs(1), request: Duration::from_secs(5) }
}

#[test]
fn grpc_context_for_valid_endpoint() {
    assert_eq!(grpc_uri("10.1.0.5:10124"), "http://10.1.0.5:10124");
    let lock = Arc::new(tokio::sync::Mutex::new(()));
    let ctx = GrpcContext::new(lock, &"n1".to_string(), "10.1.0.5:10124", &timeouts()).unwrap();
    assert_eq!(ctx.node, "n1");
    assert_eq!(ctx.comms_timeouts.request, Duration::from_secs(5));
    assert_eq!(ctx.endpoint.uri().to_string(), "http://10.1.0.5:10124/");
}

#[test]
fn grpc_context_for_invalid_endpoint() {
    let lock = Arc::new(tokio::sync::Mutex::new(()));
    let r = GrpcContext::new(lock, &"n1".to_string(), "bad host", &timeouts());
    match r {
        Err(SvcError::GrpcConnectUri { node_id, uri, .. }) => {
            assert_eq!(node_id, "n1");
            assert_eq!(uri, "http://bad host");
        }
        _ => panic!("expected an invalid URI"),
    }
}
