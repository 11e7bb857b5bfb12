//! Definition of replica types that can be saved to the persistent store.

use vstd::prelude::*;
use vstd::string::StringExecFns;
use crate::errors::{ResourceKind, SvcError};
use crate::message_bus::{
    clone_ids, clone_opt_id, id_views, replica_share_protocol, same_ids,
    same_opt_id, CreateReplica, NodeId, PoolId, Protocol, ReplicaId, ReplicaOwners,
    ReplicaShareProtocol, ReplicaState as ReplicaStatus, Replica as BusReplica,
};
use crate::resource_map::UuidString;
use crate::spec_state::SpecState;
use crate::specs::{spec_wf, SpecOperations};
use crate::store::{get_key, store_key, ObjectKey, StorableObject, StorableObjectType};

verus! {

/// State of the Replica Spec
pub type ReplicaSpecState = SpecState<ReplicaStatus>;

/// Replica information
#[derive(Clone, Debug)]
pub struct Replica {
    /// Current state of the replica.
    pub state: Option<ReplicaState>,
    /// Desired replica specification.
    pub spec: ReplicaSpec,
}

/// Runtime state of a replica.
#[derive(Clone, Debug, PartialEq)]
pub struct ReplicaState {
    /// Replica information.
    pub replica: BusReplica,
    /// State of the replica.
    pub state: ReplicaStatus,
}

/// Key used by the store to uniquely identify a ReplicaState structure.
#[derive(Clone, Debug, PartialEq)]
pub struct ReplicaStateKey(pub ReplicaId);

impl ObjectKey for ReplicaStateKey {
    open spec fn spec_key_type(&self) -> StorableObjectType {
        StorableObjectType::ReplicaState
    }

    open spec fn spec_key_uuid(&self) -> Seq<char> {
        self.0@
    }

    fn key_type(&self) -> StorableObjectType {
        StorableObjectType::ReplicaState
    }

    fn key_uuid(&self) -> String {
        self.0.clone()
    }
}

impl ReplicaStateKey {
    /// The full key: the type name, a slash and the uuid.
    pub fn key(&self) -> (r: String)
        ensures
            r@ == store_key(self.spec_key_type(), self.spec_key_uuid()),
    {
        get_key(self)
    }
}

impl StorableObject for ReplicaState {
    type Key = ReplicaStateKey;

    open spec fn spec_key(&self) -> ReplicaStateKey {
        ReplicaStateKey(self.replica.uuid)
    }

    fn key(&self) -> ReplicaStateKey {
        ReplicaStateKey(self.replica.uuid.clone())
    }
}

/// Available Replica Operations
#[derive(Clone, Copy, Debug, PartialEq, Eq, Structural)]
pub enum ReplicaOperation {
    Unknown,
    Create,
    Destroy,
    Share(ReplicaShareProtocol),
    Unshare,
}

impl Default for ReplicaOperation {
    fn default() -> (r: Self)
        ensures
            r is Unknown,
    {
        ReplicaOperation::Unknown
    }
}

/// Record of an operation on a replica and, once it concluded, its result.
#[derive(Clone, Copy, Debug, PartialEq, Eq, Structural)]
pub struct ReplicaOperationState {
    /// Record of the operation
    pub operation: ReplicaOperation,
    /// Result of the operation
    pub result: Option<bool>,
}

/// User specification of a replica.
#[derive(Clone, Debug)]
pub struct ReplicaSpec {
    /// uuid of the replica
    pub uuid: ReplicaId,
    /// The size that the replica should be.
    pub size: u64,
    /// The pool that the replica should live on.
    pub pool: PoolId,
    /// Protocol used for exposing the replica.
    pub share: Protocol,
    /// Thin provisioning.
    pub thin: bool,
    /// The state that the replica should eventually achieve.
    pub state: ReplicaSpecState,
    /// Managed by our control plane
    pub managed: bool,
    /// Owner Resource
    pub owners: ReplicaOwners,
    /// Update in progress
    pub updating: bool,
    /// Record of the operation in progress
    pub operation: Option<ReplicaOperationState>,
}

/// Mathematical model of a replica spec.
pub struct ReplicaSpecView {
    pub uuid: ReplicaId,
    pub size: u64,
    pub pool: PoolId,
    pub share: Protocol,
    pub thin: bool,
    pub state: ReplicaSpecState,
    pub managed: bool,
    pub owner_volume: Option<String>,
    pub owner_nexuses: Seq<String>,
    pub updating: bool,
    pub operation: Option<ReplicaOperationState>,
}

impl View for ReplicaSpec {
    type V = ReplicaSpecView;

    open spec fn view(&self) -> ReplicaSpecView {
        ReplicaSpecView {
            uuid: self.uuid,
            size: self.size,
            pool: self.pool,
            share: self.share,
            thin: self.thin,
            state: self.state,
            managed: self.managed,
            owner_volume: self.owners.volume,
            owner_nexuses: self.owners.nexuses@,
            updating: self.updating,
            operation: self.operation,
        }
    }
}

/// The spec with its pending operation dropped.
pub open spec fn replica_cleared(m: ReplicaSpecView) -> ReplicaSpecView {
    ReplicaSpecView { operation: None, updating: false, ..m }
}

/// The spec with the given operation logged and in flight.
pub open spec fn replica_started(m: ReplicaSpecView, op: ReplicaOperation) -> ReplicaSpecView {
    ReplicaSpecView {
        updating: true,
        operation: Some(ReplicaOperationState { operation: op, result: None }),
        ..m
    }
}

/// The spec with its pending operation applied and cleared.
pub open spec fn replica_committed(m: ReplicaSpecView) -> ReplicaSpecView {
    let c = replica_cleared(m);
    match m.operation {
        Some(op) => match op.operation {
            ReplicaOperation::Create => ReplicaSpecView {
                state: SpecState::Created(ReplicaStatus::Online),
                ..c
            },
            ReplicaOperation::Destroy => ReplicaSpecView { state: SpecState::Deleted, ..c },
            ReplicaOperation::Share(p) => ReplicaSpecView { share: replica_share_protocol(p), ..c },
            ReplicaOperation::Unshare => ReplicaSpecView { share: Protocol::Off, ..c },
            ReplicaOperation::Unknown => c,
        },
        None => c,
    }
}

/// Whether a create request asks for exactly this replica spec.
pub open spec fn replica_matches(m: ReplicaSpecView, r: CreateReplica) -> bool {
    &&& m.uuid@ == r.uuid@
    &&& m.size == r.size
    &&& m.pool@ == r.pool@
    &&& m.share == r.share
    &&& m.thin == r.thin
    &&& m.managed == r.managed
    &&& match (m.owner_volume, r.owners.volume) {
        (Some(x), Some(y)) => x@ == y@,
        (None, None) => true,
        _ => false,
    }
    &&& id_views(m.owner_nexuses) == id_views(r.owners.nexuses@)
    &&& m.operation is None
}

/// Why an update operation may not start on a created replica, if it may not.
pub open spec fn replica_update_refusal(m: ReplicaSpecView, op: ReplicaOperation) -> Option<
    SvcError,
> {
    match op {
        ReplicaOperation::Share(_) => if m.share != Protocol::Off {
            Some(
                SvcError::AlreadyShared {
                    kind: ResourceKind::Replica,
                    id: m.uuid,
                    share: m.share,
                },
            )
        } else {
            None
        },
        ReplicaOperation::Unshare => if m.share == Protocol::Off {
            Some(SvcError::NotShared { kind: ResourceKind::Replica, id: m.uuid })
        } else {
            None
        },
        _ => Some(SvcError::InvalidArguments {  }),
    }
}


impl ReplicaSpec {
    /// A replica spec, for a create request, that is waiting to be created.
    pub open spec fn requested(r: CreateReplica) -> ReplicaSpecView {
        ReplicaSpecView {
            uuid: r.uuid,
            size: r.size,
            pool: r.pool,
            share: r.share,
            thin: r.thin,
            state: SpecState::Creating,
            managed: r.managed,
            owner_volume: r.owners.volume,
            owner_nexuses: r.owners.nexuses@,
            updating: false,
            operation: None,
        }
    }

    /// Whether a create request asks for exactly this spec.
    pub fn eq(&self, other: &CreateReplica) -> (r: bool)
        ensures
            r == replica_matches(self@, *other),
    {
        self.uuid.eq(&other.uuid) && self.size == other.size && self.pool.eq(&other.pool)
            && self.share == other.share && self.thin == other.thin && self.managed
            == other.managed && same_opt_id(&self.owners.volume, &other.owners.volume) && same_ids(
            &self.owners.nexuses,
            &other.owners.nexuses,
        ) && self.operation.is_none()
    }
}

impl SpecOperations for ReplicaSpec {
    type Create = CreateReplica;
    type State = ReplicaStatus;
    type Status = BusReplica;
    type UpdateOp = ReplicaOperation;

    open spec fn state_of(m: ReplicaSpecView) -> ReplicaSpecState {
        m.state
    }

    open spec fn updating_of(m: ReplicaSpecView) -> bool {
        m.updating
    }

    open spec fn pending_of(m: ReplicaSpecView) -> Option<Option<bool>> {
        match m.operation {
            Some(op) => Some(op.result),
            None => None,
        }
    }

    open spec fn creating_op(m: ReplicaSpecView) -> bool {
        m.operation matches Some(op) && op.operation is Create
    }

    open spec fn owned_of(m: ReplicaSpecView) -> bool {
        m.owner_volume is Some || m.owner_nexuses.len() > 0
    }

    open spec fn kind_of(m: ReplicaSpecView) -> ResourceKind {
        ResourceKind::Replica
    }

    open spec fn id_of(m: ReplicaSpecView) -> String {
        m.uuid
    }

    open spec fn matches_request(m: ReplicaSpecView, request: CreateReplica) -> bool {
        replica_matches(m, request)
    }

    open spec fn synced_with(m: ReplicaSpecView, status: BusReplica) -> bool {
        true
    }

    open spec fn update_refusal(
        m: ReplicaSpecView,
        status: BusReplica,
        op: ReplicaOperation,
    ) -> Option<SvcError> {
        replica_update_refusal(m, op)
    }

    open spec fn kind_wf(m: ReplicaSpecView) -> bool {
        !(m.operation matches Some(op) && op.operation is Unknown)
    }

    open spec fn create_started(m: ReplicaSpecView) -> ReplicaSpecView {
        replica_started(m, ReplicaOperation::Create)
    }

    open spec fn destroy_started(m: ReplicaSpecView) -> ReplicaSpecView {
        replica_started(m, ReplicaOperation::Destroy)
    }

    open spec fn update_started(m: ReplicaSpecView, op: ReplicaOperation) -> ReplicaSpecView {
        replica_started(m, op)
    }

    open spec fn committed(m: ReplicaSpecView) -> ReplicaSpecView {
        replica_committed(m)
    }

    open spec fn cleared(m: ReplicaSpecView) -> ReplicaSpecView {
        replica_cleared(m)
    }

    open spec fn with_result(m: ReplicaSpecView, result: bool) -> ReplicaSpecView {
        ReplicaSpecView {
            operation: match m.operation {
                Some(op) => Some(ReplicaOperationState { result: Some(result), ..op }),
                None => None,
            },
            updating: false,
            ..m
        }
    }

    open spec fn with_state(m: ReplicaSpecView, state: ReplicaSpecState) -> ReplicaSpecView {
        ReplicaSpecView { state, ..m }
    }

    proof fn lemma_transitions(m: ReplicaSpecView) {
    }

    proof fn lemma_kind_wf(m: ReplicaSpecView) {
    }

    fn updating(&self) -> bool {
        self.updating
    }

    fn dirty(&self) -> bool {
        match self.operation {
            Some(op) => op.result.is_some(),
            None => false,
        }
    }

    fn has_pending_op(&self) -> bool {
        self.operation.is_some()
    }

    fn pending_result(&self) -> Option<bool> {
        match self.operation {
            Some(op) => op.result,
            None => None,
        }
    }

    fn kind(&self) -> ResourceKind {
        ResourceKind::Replica
    }

    fn uuid(&self) -> String {
        self.uuid.clone()
    }

    fn state(&self) -> ReplicaSpecState {
        self.state
    }

    fn set_state(&mut self, state: ReplicaSpecState) {
        self.state = state;
    }

    fn owned(&self) -> bool {
        self.owners.is_owned()
    }

    fn matches(&self, request: &CreateReplica) -> bool {
        self.eq(request)
    }

    fn status_synced(&self, status: &BusReplica) -> bool {
        true
    }

    fn duplicate(&self) -> ReplicaSpec {
        ReplicaSpec {
            uuid: self.uuid.clone(),
            size: self.size,
            pool: self.pool.clone(),
            share: self.share,
            thin: self.thin,
            state: self.state,
            managed: self.managed,
            owners: self.owners.duplicate(),
            updating: self.updating,
            operation: self.operation,
        }
    }

    fn start_create_op(&mut self) {
        self.start_op(ReplicaOperation::Create);
    }

    fn start_destroy_op(&mut self) {
        self.start_op(ReplicaOperation::Destroy);
    }

    fn start_update_op(&mut self, status: &BusReplica, op: ReplicaOperation) -> Result<
        (),
        SvcError,
    > {
        match op {
            ReplicaOperation::Share(_) => {
                if self.share != Protocol::Off {
                    return Err(
                        SvcError::AlreadyShared {
                            kind: ResourceKind::Replica,
                            id: self.uuid.clone(),
                            share: self.share,
                        },
                    );
                }
            },
            ReplicaOperation::Unshare => {
                if self.share == Protocol::Off {
                    return Err(
                        SvcError::NotShared { kind: ResourceKind::Replica, id: self.uuid.clone() },
                    );
                }
            },
            _ => {
                return Err(SvcError::InvalidArguments {  });
            },
        }
        self.start_op(op);
        Ok(())
    }

    fn commit_op(&mut self) {
        if let Some(op) = self.operation {
            match op.operation {
                ReplicaOperation::Unknown => {},
                ReplicaOperation::Create => {
                    self.state = SpecState::Created(ReplicaStatus::Online);
                },
                ReplicaOperation::Destroy => {
                    self.state = SpecState::Deleted;
                },
                ReplicaOperation::Share(share) => {
                    self.share = Protocol::from(share);
                },
                ReplicaOperation::Unshare => {
                    self.share = Protocol::Off;
                },
            }
        }
        self.clear_op();
    }

    fn clear_op(&mut self) {
        self.operation = None;
        self.updating = false;
    }

    fn set_op_result(&mut self, result: bool) {
        if let Some(op) = self.operation {
            self.operation = Some(ReplicaOperationState { operation: op.operation, result: Some(result) });
        }
        self.updating = false;
    }
}

impl ReplicaSpec {
    /// Log an operation as in flight.
    pub fn start_op(&mut self, operation: ReplicaOperation)
        ensures
            final(self)@ == replica_started(old(self)@, operation),
    {
        self.updating = true;
        self.operation = Some(ReplicaOperationState { operation, result: None });
    }

    /// Whether the spec satisfies the engine's invariant, as every spec that
    /// the engine works on must.
    pub fn well_formed(&self) -> (r: bool)
        ensures
            r == spec_wf::<ReplicaSpec>(self@),
    {
        match self.operation {
            Some(op) => match op.operation {
                ReplicaOperation::Unknown => false,
                ReplicaOperation::Create => self.state.creating(),
                _ => true,
            },
            None => !self.updating,
        }
    }

    /// Whether an operation is pending.
    pub fn pending_op(&self) -> (r: bool)
        ensures
            r == self.operation is Some,
    {
        self.operation.is_some()
    }
}

/// Key used by the store to uniquely identify a ReplicaSpec structure.
#[derive(Clone, Debug, PartialEq)]
pub struct ReplicaSpecKey(pub ReplicaId);

impl ObjectKey for ReplicaSpecKey {
    open spec fn spec_key_type(&self) -> StorableObjectType {
        StorableObjectType::ReplicaSpec
    }

    open spec fn spec_key_uuid(&self) -> Seq<char> {
        self.0@
    }

    fn key_type(&self) -> StorableObjectType {
        StorableObjectType::ReplicaSpec
    }

    fn key_uuid(&self) -> String {
        self.0.clone()
    }
}

impl ReplicaSpecKey {
    /// The full key: the type name, a slash and the uuid.
    pub fn key(&self) -> (r: String)
        ensures
            r@ == store_key(self.spec_key_type(), self.spec_key_uuid()),
    {
        get_key(self)
    }
}

impl From<&ReplicaId> for ReplicaSpecKey {
    fn from(id: &ReplicaId) -> (r: ReplicaSpecKey)
        ensures
            r.0 == *id,
    {
        ReplicaSpecKey(id.clone())
    }
}

impl vstd::std_specs::convert::FromSpecImpl<&ReplicaId> for ReplicaSpecKey {
    open spec fn obeys_from_spec() -> bool {
        true
    }

    open spec fn from_spec(v: &ReplicaId) -> ReplicaSpecKey {
        ReplicaSpecKey(*v)
    }
}

impl StorableObject for ReplicaSpec {
    type Key = ReplicaSpecKey;

    open spec fn spec_key(&self) -> ReplicaSpecKey {
        ReplicaSpecKey(self.uuid)
    }

    fn key(&self) -> ReplicaSpecKey {
        ReplicaSpecKey(self.uuid.clone())
    }
}

impl From<&ReplicaSpec> for BusReplica {
    fn from(replica: &ReplicaSpec) -> (r: BusReplica)
        ensures
            r.node@.len() == 0,
            r.uuid == replica.uuid,
            r.pool == replica.pool,
            r.thin == replica.thin,
            r.size == replica.size,
            r.share == replica.share,
            r.uri@.len() == 0,
            r.state == ReplicaStatus::Unknown,
    {
        BusReplica {
            node: NodeId::new(),
            uuid: replica.uuid.clone(),
            pool: replica.pool.clone(),
            thin: replica.thin,
            size: replica.size,
            share: replica.share,
            uri: String::new(),
            state: ReplicaStatus::Unknown,
        }
    }
}

/// Text fields are stated by their views in `from`'s own contract.
impl vstd::std_specs::convert::FromSpecImpl<&ReplicaSpec> for BusReplica {
    open spec fn obeys_from_spec() -> bool {
        false
    }

    open spec fn from_spec(v: &ReplicaSpec) -> BusReplica {
        arbitrary()
    }
}

impl From<&CreateReplica> for ReplicaSpec {
    fn from(request: &CreateReplica) -> (r: ReplicaSpec)
        ensures
            r@ == ReplicaSpec::requested(*request),
    {
        ReplicaSpec {
            uuid: request.uuid.clone(),
            size: request.size,
            pool: request.pool.clone(),
            share: request.share,
            thin: request.thin,
            state: SpecState::Creating,
            managed: request.managed,
            owners: request.owners.duplicate(),
            updating: false,
            operation: None,
        }
    }
}

/// The spec is stated by its view in `from`'s own contract.
impl vstd::std_specs::convert::FromSpecImpl<&CreateReplica> for ReplicaSpec {
    open spec fn obeys_from_spec() -> bool {
        false
    }

    open spec fn from_spec(v: &CreateReplica) -> ReplicaSpec {
        arbitrary()
    }
}

impl UuidString for ReplicaState {
    open spec fn uuid_text(&self) -> Seq<char> {
        self.replica.uuid@
    }

    fn uuid_as_string(&self) -> String {
        self.replica.uuid.clone()
    }
}

impl UuidString for ReplicaSpec {
    open spec fn uuid_text(&self) -> Seq<char> {
        self.uuid@
    }

    fn uuid_as_string(&self) -> String {
        self.uuid.clone()
    }
}

} // verus!
