use core_agent::errors::{ResourceKind, SvcError};
use core_agent::message_bus::{
    CreateReplica, Protocol, Replica, ReplicaOwners, ReplicaShareProtocol, ReplicaState,
};
use core_agent::replica::{ReplicaOperation, ReplicaSpec};
use core_agent::spec_state::SpecState;
use core_agent::specs::{
    complete_create, complete_destroy, complete_update, completion_value, finish_destroy_start,
    reconcile_dirty, reconcile_value, replay_operation, start_create_inner, start_destroy_inner,
    start_update_inner, store_operation_log, SpecOperations,
};
use core_agent::store::StoreError;

fn request(size: u64) -> CreateReplica {
    CreateReplica {
        node: "n1".to_string(),
        uuid: "r1".to_string(),
        pool: "p1".to_string(),
        size,
        thin: false,
        share: Protocol::Nvmf,
        managed: true,
        owners: ReplicaOwners::default(),
    }
}

fn store_down() -> StoreError {
    StoreError::Put {
        key: "ReplicaSpec/r1".to_string(),
        value: "{}".to_string(),
        source: "unavailable".to_string(),
    }
}

fn agent_replica() -> Replica {
    Replica {
        node: "n1".to_string(),
        uuid: "r1".to_string(),
        pool: "p1".to_string(),
        thin: false,
        size: 1048576,
        share: Protocol::Nvmf,
        uri: "nvmf://n1/r1".to_string(),
        state: ReplicaState::Online,
    }
}

fn created_replica() -> ReplicaSpec {
    let mut spec = ReplicaSpec::from(&request(1048576));
    start_create_inner(&mut spec, &request(1048576)).unwrap();
    store_operation_log(&mut spec, Ok(())).unwrap();
    complete_create(&mut spec, Ok(agent_replica()), Ok(())).unwrap();
    spec
}

#[test]
fn happy_path_replica_create() {
    let req = request(1048576);
    let mut spec = ReplicaSpec::from(&req);
    assert_eq!(spec.state, SpecState::Creating);
    assert!(start_create_inner(&mut spec, &req).is_ok());
    assert!(spec.updating);
    assert_eq!(spec.operation.unwrap().operation, ReplicaOperation::Create);
    // the value that goes to the store carries the pending operation
    let logged = spec.duplicate();
    assert_eq!(logged.operation, spec.operation);
    assert!(store_operation_log(&mut spec, Ok(())).is_ok());
    let persisted = completion_value(&spec, true);
    assert_eq!(persisted.state, SpecState::Created(ReplicaState::Online));
    let reply = complete_create(&mut spec, Ok(agent_replica()), Ok(())).unwrap();
    assert_eq!(reply.uri, "nvmf://n1/r1");
    assert_eq!(spec.state, SpecState::Created(ReplicaState::Online));
    assert!(spec.operation.is_none());
    assert!(!spec.updating);
}

#[test]
fn concurrent_identical_create_does_no_second_work() {
    let req = request(1048576);
    let mut spec = ReplicaSpec::from(&req);
    start_create_inner(&mut spec, &req).unwrap();
    // the second request while the first is in flight starts nothing
    assert_eq!(start_create_inner(&mut spec, &req), Err(SvcError::Conflict {}));
    assert!(spec.updating);
    store_operation_log(&mut spec, Ok(())).unwrap();
    let reply = complete_create(&mut spec, Ok(agent_replica()), Ok(())).unwrap();
    assert_eq!(reply.uri, "nvmf://n1/r1");
}

#[test]
fn create_parameter_mismatch_retry() {
    let req = request(1048576);
    let mut spec = ReplicaSpec::from(&req);
    start_create_inner(&mut spec, &req).unwrap();
    store_operation_log(&mut spec, Ok(())).unwrap();
    // the first attempt's gRPC call fails and the rollback is stored
    let failed: Result<Replica, SvcError> = Err(SvcError::Internal { details: "grpc".to_string() });
    assert!(complete_create(&mut spec, failed, Ok(())).is_err());
    assert_eq!(spec.state, SpecState::Creating);
    assert!(spec.operation.is_none());
    let other = request(2097152);
    assert_eq!(
        start_create_inner(&mut spec, &other),
        Err(SvcError::ReCreateMismatch { id: "r1".to_string(), kind: ResourceKind::Replica })
    );
    // an identical retry goes through
    assert!(start_create_inner(&mut spec, &req).is_ok());
    assert_eq!(spec.operation.unwrap().operation, ReplicaOperation::Create);
}

#[test]
fn store_outage_during_commit() {
    let req = request(1048576);
    let mut spec = ReplicaSpec::from(&req);
    start_create_inner(&mut spec, &req).unwrap();
    store_operation_log(&mut spec, Ok(())).unwrap();
    let r = complete_create(&mut spec, Ok(agent_replica()), Err(store_down()));
    assert_eq!(r, Err(SvcError::Store { source: store_down() }));
    assert_eq!(spec.operation.unwrap().result, Some(true));
    assert!(!spec.updating);
    assert!(spec.dirty());
    assert_eq!(
        start_create_inner(&mut spec, &req),
        Err(SvcError::StoreSave { kind: ResourceKind::Replica, id: "r1".to_string() })
    );
    assert_eq!(
        start_destroy_inner(&mut spec, true),
        Err(SvcError::StoreSave { kind: ResourceKind::Replica, id: "r1".to_string() })
    );
    // the reconciler retries while the store is down, then succeeds
    assert!(reconcile_dirty(&mut spec, Err(store_down())));
    assert!(spec.dirty());
    let value = reconcile_value(&spec);
    assert_eq!(value.state, SpecState::Created(ReplicaState::Online));
    assert!(reconcile_dirty(&mut spec, Ok(())));
    assert_eq!(spec.state, SpecState::Created(ReplicaState::Online));
    assert!(spec.operation.is_none());
    assert!(!reconcile_dirty(&mut spec, Ok(())));
}

#[test]
fn store_failure_during_start_rolls_back() {
    let req = request(1048576);
    let mut spec = ReplicaSpec::from(&req);
    start_create_inner(&mut spec, &req).unwrap();
    let r = store_operation_log(&mut spec, Err(store_down()));
    assert_eq!(r, Err(SvcError::Store { source: store_down() }));
    assert!(spec.operation.is_none());
    assert!(!spec.updating);
    assert_eq!(spec.state, SpecState::Creating);
}

#[test]
fn destroy_of_owned_replica() {
    let mut req = request(1048576);
    req.owners = ReplicaOwners::new(&"v1".to_string());
    let mut spec = ReplicaSpec::from(&req);
    start_create_inner(&mut spec, &req).unwrap();
    store_operation_log(&mut spec, Ok(())).unwrap();
    complete_create(&mut spec, Ok(()), Ok(())).unwrap();
    assert_eq!(
        start_destroy_inner(&mut spec, false),
        Err(SvcError::InUse { kind: ResourceKind::Replica, id: "r1".to_string() })
    );
    assert!(!spec.updating);
    assert_eq!(start_destroy_inner(&mut spec, true), Ok(true));
    let logged = finish_destroy_start(&mut spec, Ok(())).unwrap();
    assert_eq!(logged.state, SpecState::Deleting);
    store_operation_log(&mut spec, Ok(())).unwrap();
    assert_eq!(complete_destroy(&mut spec, Ok(()), Ok(())), Ok(()));
    assert_eq!(spec.state, SpecState::Deleted);
    assert!(spec.operation.is_none());
}

#[test]
fn destroy_of_deleted_replica_is_noop() {
    let mut spec = created_replica();
    assert_eq!(start_destroy_inner(&mut spec, false), Ok(true));
    finish_destroy_start(&mut spec, Ok(())).unwrap();
    complete_destroy(&mut spec, Ok(()), Ok(())).unwrap();
    assert_eq!(spec.state, SpecState::Deleted);
    let before = spec.clone();
    assert_eq!(start_destroy_inner(&mut spec, false), Ok(false));
    assert_eq!(spec.state, before.state);
    assert_eq!(spec.operation, before.operation);
    assert_eq!(spec.updating, before.updating);
}

#[test]
fn failed_destroy_validation_clears_operation() {
    let mut spec = created_replica();
    assert_eq!(start_destroy_inner(&mut spec, false), Ok(true));
    assert!(spec.updating);
    let r = finish_destroy_start(&mut spec, Err(SvcError::Conflict {}));
    assert!(matches!(r, Err(SvcError::Conflict {})));
    assert!(!spec.updating);
    assert!(spec.operation.is_none());
    assert_eq!(spec.state, SpecState::Created(ReplicaState::Online));
}

#[test]
fn deleting_spec_refuses_create_and_update() {
    let mut spec = created_replica();
    start_destroy_inner(&mut spec, false).unwrap();
    finish_destroy_start(&mut spec, Ok(())).unwrap();
    store_operation_log(&mut spec, Ok(())).unwrap();
    // the destroy's gRPC call fails: the spec stays Deleting
    let failed: Result<(), SvcError> = Err(SvcError::Internal { details: "grpc".to_string() });
    assert!(complete_destroy(&mut spec, failed, Ok(())).is_err());
    assert_eq!(spec.state, SpecState::Deleting);
    assert_eq!(start_create_inner(&mut spec, &request(1048576)), Err(SvcError::Deleting {}));
    let r = start_update_inner(&mut spec, &agent_replica(), ReplicaOperation::Unshare, false);
    assert!(matches!(r, Err(SvcError::PendingDeletion { .. })));
}

#[test]
fn replica_share_and_unshare() {
    let mut req = request(1048576);
    req.share = Protocol::Off;
    let mut spec = ReplicaSpec::from(&req);
    start_create_inner(&mut spec, &req).unwrap();
    complete_create(&mut spec, Ok(()), Ok(())).unwrap();
    let status = agent_replica();
    let share = ReplicaOperation::Share(ReplicaShareProtocol::Nvmf);
    let clone = start_update_inner(&mut spec, &status, share, false).unwrap();
    assert_eq!(clone.operation, spec.operation);
    complete_update(&mut spec, Ok(()), Ok(())).unwrap();
    assert_eq!(spec.share, Protocol::Nvmf);
    let again = start_update_inner(&mut spec, &status, share, false);
    assert!(matches!(again, Err(SvcError::AlreadyShared { share: Protocol::Nvmf, .. })));
    start_update_inner(&mut spec, &status, ReplicaOperation::Unshare, false).unwrap();
    complete_update(&mut spec, Ok(()), Ok(())).unwrap();
    assert_eq!(spec.share, Protocol::Off);
    let again = start_update_inner(&mut spec, &status, ReplicaOperation::Unshare, false);
    assert!(matches!(again, Err(SvcError::NotShared { .. })));
}

#[test]
fn update_while_creating_is_pending_creation() {
    let req = request(1048576);
    let mut spec = ReplicaSpec::from(&req);
    let r = start_update_inner(&mut spec, &agent_replica(), ReplicaOperation::Unshare, false);
    assert_eq!(
        r.err(),
        Some(SvcError::PendingCreation { kind: ResourceKind::Replica, id: "r1".to_string() })
    );
}

#[test]
fn create_on_created_already_exists() {
    let mut spec = created_replica();
    assert_eq!(
        start_create_inner(&mut spec, &request(1048576)),
        Err(SvcError::AlreadyExists { kind: ResourceKind::Replica, id: "r1".to_string() })
    );
}

#[test]
fn store_failure_after_grpc_failure_marks_rolled_back() {
    let req = request(1048576);
    let mut spec = ReplicaSpec::from(&req);
    start_create_inner(&mut spec, &req).unwrap();
    let failed: Result<(), SvcError> = Err(SvcError::Internal { details: "grpc".to_string() });
    let r = complete_create(&mut spec, failed, Err(store_down()));
    assert_eq!(r, Err(SvcError::Store { source: store_down() }));
    assert_eq!(spec.operation.unwrap().result, Some(false));
    assert!(reconcile_dirty(&mut spec, Ok(())));
    assert_eq!(spec.state, SpecState::Creating);
    assert!(spec.operation.is_none());
}

#[test]
fn replica_owners() {
    let owners = ReplicaOwners::new(&"v1".to_string());
    assert!(owners.is_owned());
    assert!(owners.owned_by(&"v1".to_string()));
    assert!(!owners.owned_by(&"v2".to_string()));
    let mut owners = owners;
    owners.disowned_by_volume();
    assert!(!owners.is_owned());
    let mut nexus_owned = ReplicaOwners::default();
    nexus_owned.nexuses.push("n1".to_string());
    assert!(nexus_owned.is_owned());
}

#[test]
fn replica_spec_matches_request() {
    let req = request(1048576);
    let spec = ReplicaSpec::from(&req);
    assert!(spec.eq(&req));
    assert!(!spec.eq(&request(2097152)));
    let mut other_owner = req.clone();
    other_owner.owners = ReplicaOwners::new(&"v9".to_string());
    assert!(!spec.eq(&other_owner));
}

#[test]
fn replay_of_logged_operations() {
    let req = request(1048576);
    // a create that concluded successfully but was not persisted is applied
    let mut spec = ReplicaSpec::from(&req);
    start_create_inner(&mut spec, &req).unwrap();
    spec.set_op_result(true);
    replay_operation(&mut spec);
    assert_eq!(spec.state, SpecState::Created(ReplicaState::Online));
    assert!(spec.operation.is_none());
    // a create whose outcome is unknown is dropped
    let mut spec = ReplicaSpec::from(&req);
    start_create_inner(&mut spec, &req).unwrap();
    replay_operation(&mut spec);
    assert_eq!(spec.state, SpecState::Creating);
    assert!(spec.operation.is_none());
    assert!(!spec.updating);
    // nothing logged: nothing changes
    let mut spec = created_replica();
    replay_operation(&mut spec);
    assert_eq!(spec.state, SpecState::Created(ReplicaState::Online));
}
