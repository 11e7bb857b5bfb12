//! Definition of nexus types that can be saved to the persistent store.

use vstd::prelude::*;
use crate::errors::{ResourceKind, SvcError};
use crate::message_bus::{
    clone_ids, clone_opt_id, id_views, nexus_share_protocol, same_ids, same_opt_id, Child,
    ChildState, ChildUri, CreateNexus, DestroyNexus, Nexus as BusNexus, NexusId,
    NexusShareProtocol, NexusState as NexusStatus, NodeId, Protocol, VolumeId,
};
use crate::resource_map::UuidString;
use crate::spec_state::SpecState;
use crate::specs::{spec_wf, SpecOperations};
use crate::store::{get_key, store_key, ObjectKey, StorableObject, StorableObjectType};

verus! {

/// State of the Nexus Spec
pub type NexusSpecState = SpecState<NexusStatus>;

/// Nexus information
#[derive(Clone, Debug)]
pub struct Nexus {
    /// Current state of the nexus.
    pub state: Option<NexusStatus>,
    /// Desired nexus specification.
    pub spec: NexusSpec,
}

/// Runtime state of the nexus.
#[derive(Clone, Debug, PartialEq)]
pub struct NexusState {
    /// Nexus information.
    pub nexus: BusNexus,
}

/// Key used by the store to uniquely identify a NexusState structure.
#[derive(Clone, Debug, PartialEq)]
pub struct NexusStateKey(pub NexusId);

impl From<&NexusId> for NexusStateKey {
    fn from(id: &NexusId) -> (r: NexusStateKey)
        ensures
            r.0 == *id,
    {
        NexusStateKey(id.clone())
    }
}

impl vstd::std_specs::convert::FromSpecImpl<&NexusId> for NexusStateKey {
    open spec fn obeys_from_spec() -> bool {
        true
    }

    open spec fn from_spec(v: &NexusId) -> NexusStateKey {
        NexusStateKey(*v)
    }
}

impl ObjectKey for NexusStateKey {
    open spec fn spec_key_type(&self) -> StorableObjectType {
        StorableObjectType::NexusState
    }

    open spec fn spec_key_uuid(&self) -> Seq<char> {
        self.0@
    }

    fn key_type(&self) -> StorableObjectType {
        StorableObjectType::NexusState
    }

    fn key_uuid(&self) -> String {
        self.0.clone()
    }
}

impl NexusStateKey {
    /// The full key: the type name, a slash and the uuid.
    pub fn key(&self) -> (r: String)
        ensures
            r@ == store_key(self.spec_key_type(), self.spec_key_uuid()),
    {
        get_key(self)
    }
}

impl StorableObject for NexusState {
    type Key = NexusStateKey;

    open spec fn spec_key(&self) -> NexusStateKey {
        NexusStateKey(self.nexus.uuid)
    }

    fn key(&self) -> NexusStateKey {
        NexusStateKey(self.nexus.uuid.clone())
    }
}

/// Available Nexus Operations
#[derive(Clone, Debug, PartialEq)]
pub enum NexusOperation {
    Unknown,
    Create,
    Destroy,
    Share(NexusShareProtocol),
    Unshare,
    AddChild(ChildUri),
    RemoveChild(ChildUri),
}

impl Default for NexusOperation {
    fn default() -> (r: Self)
        ensures
            r is Unknown,
    {
        NexusOperation::Unknown
    }
}

/// Operation State for a Nexus spec resource
#[derive(Clone, Debug, PartialEq)]
pub struct NexusOperationState {
    /// Record of the operation
    pub operation: NexusOperation,
    /// Result of the operation
    pub result: Option<bool>,
}

/// User specification of a nexus.
#[derive(Clone, Debug)]
pub struct NexusSpec {
    /// Nexus Id
    pub uuid: NexusId,
    /// Node where the nexus should live.
    pub node: NodeId,
    /// List of children.
    pub children: Vec<ChildUri>,
    /// Size of the nexus.
    pub size: u64,
    /// The state the nexus should eventually reach.
    pub state: NexusSpecState,
    /// Share Protocol
    pub share: Protocol,
    /// Managed by our control plane
    pub managed: bool,
    /// Volume which owns this nexus, if any
    pub owner: Option<VolumeId>,
    /// Update of the state in progress
    pub updating: bool,
    /// Record of the operation in progress
    pub operation: Option<NexusOperationState>,
}

/// Mathematical model of a nexus spec; children are modelled by their text.
pub struct NexusSpecView {
    pub uuid: NexusId,
    pub node: NodeId,
    pub children: Seq<Seq<char>>,
    pub size: u64,
    pub state: NexusSpecState,
    pub share: Protocol,
    pub managed: bool,
    pub owner: Option<VolumeId>,
    pub updating: bool,
    pub operation: Option<NexusOperationState>,
}

impl View for NexusSpec {
    type V = NexusSpecView;

    open spec fn view(&self) -> NexusSpecView {
        NexusSpecView {
            uuid: self.uuid,
            node: self.node,
            children: id_views(self.children@),
            size: self.size,
            state: self.state,
            share: self.share,
            managed: self.managed,
            owner: self.owner,
            updating: self.updating,
            operation: self.operation,
        }
    }
}

/// The children without any whose text is `uri`.
pub open spec fn without_child(children: Seq<Seq<char>>, uri: Seq<char>) -> Seq<Seq<char>> {
    children.filter(|c: Seq<char>| c != uri)
}

/// The spec with its pending operation dropped.
pub open spec fn nexus_cleared(m: NexusSpecView) -> NexusSpecView {
    NexusSpecView { operation: None, updating: false, ..m }
}

/// The spec with the given operation logged and in flight.
pub open spec fn nexus_started(m: NexusSpecView, op: NexusOperation) -> NexusSpecView {
    NexusSpecView {
        updating: true,
        operation: Some(NexusOperationState { operation: op, result: None }),
        ..m
    }
}

/// The spec with its pending operation applied and cleared.
pub open spec fn nexus_committed(m: NexusSpecView) -> NexusSpecView {
    let c = nexus_cleared(m);
    match m.operation {
        Some(op) => match op.operation {
            NexusOperation::Create => NexusSpecView {
                state: SpecState::Created(NexusStatus::Online),
                ..c
            },
            NexusOperation::Destroy => NexusSpecView { state: SpecState::Deleted, ..c },
            NexusOperation::Share(p) => NexusSpecView { share: nexus_share_protocol(p), ..c },
            NexusOperation::Unshare => NexusSpecView { share: Protocol::Off, ..c },
            NexusOperation::AddChild(uri) => NexusSpecView { children: m.children.push(uri@), ..c },
            NexusOperation::RemoveChild(uri) => NexusSpecView {
                children: without_child(m.children, uri@),
                ..c
            },
            NexusOperation::Unknown => c,
        },
        None => c,
    }
}

/// Whether a create request asks for exactly this nexus spec.
pub open spec fn nexus_matches(m: NexusSpecView, r: CreateNexus) -> bool {
    &&& m.uuid@ == r.uuid@
    &&& m.node@ == r.node@
    &&& m.children == id_views(r.children@)
    &&& m.size == r.size
    &&& m.share == Protocol::Off
    &&& m.managed == r.managed
    &&& match (m.owner, r.owner) {
        (Some(x), Some(y)) => x@ == y@,
        (None, None) => true,
        _ => false,
    }
    &&& m.operation is None
}

/// Why an update operation may not start on a created nexus, if it may not.
pub open spec fn nexus_update_refusal(m: NexusSpecView, op: NexusOperation) -> Option<SvcError> {
    match op {
        NexusOperation::Share(_) => if m.share != Protocol::Off {
            Some(SvcError::AlreadyShared { kind: ResourceKind::Nexus, id: m.uuid, share: m.share })
        } else {
            None
        },
        NexusOperation::Unshare => if m.share == Protocol::Off {
            Some(SvcError::NotShared { kind: ResourceKind::Nexus, id: m.uuid })
        } else {
            None
        },
        NexusOperation::AddChild(uri) => if m.children.contains(uri@) {
            Some(SvcError::ChildAlreadyExists { nexus: m.uuid, child: uri })
        } else {
            None
        },
        NexusOperation::RemoveChild(uri) => if !m.children.contains(uri@) {
            Some(SvcError::ChildNotFound { nexus: m.uuid, child: uri })
        } else {
            None
        },
        _ => Some(SvcError::InvalidArguments {  }),
    }
}

/// Removing a child from a list with one more element at its end.
pub proof fn lemma_without_child_push(s: Seq<Seq<char>>, x: Seq<char>, uri: Seq<char>)
    ensures
        without_child(s.push(x), uri) == (if x != uri {
            without_child(s, uri).push(x)
        } else {
            without_child(s, uri)
        }),
{
    let pred = |c: Seq<char>| c != uri;
    assert(s.push(x).drop_last() =~= s);
    assert(s.push(x).last() == x);
    reveal_with_fuel(Seq::filter, 2);
    assert(s.push(x).filter(pred) == (if pred(x) {
        s.filter(pred).push(x)
    } else {
        s.filter(pred)
    }));
}

/// The children of a nexus without any whose text is `uri`, in order.
pub fn retain_other_children(children: &Vec<ChildUri>, uri: &ChildUri) -> (r: Vec<ChildUri>)
    ensures
        id_views(r@) == without_child(id_views(children@), uri@),
{
    let mut r: Vec<ChildUri> = Vec::new();
    let mut i: usize = 0;
    while i < children.len()
        invariant
            i <= children@.len(),
            id_views(r@) == without_child(id_views(children@.subrange(0, i as int)), uri@),
        decreases children@.len() - i,
    {
        let ghost before = children@.subrange(0, i as int);
        let ghost after = children@.subrange(0, i + 1);
        proof {
            assert(id_views(after) =~= id_views(before).push(children@[i as int]@));
            lemma_without_child_push(id_views(before), children@[i as int]@, uri@);
        }
        if !children[i].eq(uri) {
            let ghost prev = r@;
            r.push(children[i].clone());
            proof {
                assert(id_views(r@) =~= id_views(prev).push(children@[i as int]@));
            }
        }
        i = i + 1;
    }
    proof {
        assert(children@.subrange(0, children@.len() as int) =~= children@);
    }
    r
}


/// Whether a child with the text of `uri` is in the list.
pub fn has_child(children: &Vec<ChildUri>, uri: &ChildUri) -> (r: bool)
    ensures
        r == id_views(children@).contains(uri@),
{
    let mut i: usize = 0;
    while i < children.len()
        invariant
            i <= children@.len(),
            forall|j: int| 0 <= j < i ==> children@[j]@ != uri@,
        decreases children@.len() - i,
    {
        if children[i].eq(uri) {
            proof {
                assert(id_views(children@)[i as int] == uri@);
            }
            return true;
        }
        i = i + 1;
    }
    proof {
        if id_views(children@).contains(uri@) {
            let k = choose|k: int| 0 <= k < id_views(children@).len() && id_views(children@)[k] == uri@;
            assert(children@[k]@ == uri@);
        }
    }
    false
}

impl NexusOperation {
    /// A copy of the operation.
    pub fn duplicate(&self) -> (r: Self)
        ensures
            r == *self,
    {
        match self {
            NexusOperation::Unknown => NexusOperation::Unknown,
            NexusOperation::Create => NexusOperation::Create,
            NexusOperation::Destroy => NexusOperation::Destroy,
            NexusOperation::Share(p) => NexusOperation::Share(*p),
            NexusOperation::Unshare => NexusOperation::Unshare,
            NexusOperation::AddChild(uri) => NexusOperation::AddChild(uri.clone()),
            NexusOperation::RemoveChild(uri) => NexusOperation::RemoveChild(uri.clone()),
        }
    }
}

impl NexusOperationState {
    /// A copy of the operation record.
    pub fn duplicate(&self) -> (r: Self)
        ensures
            r == *self,
    {
        NexusOperationState { operation: self.operation.duplicate(), result: self.result }
    }
}

/// A copy of an optional operation record.
fn duplicate_op(op: &Option<NexusOperationState>) -> (r: Option<NexusOperationState>)
    ensures
        r == *op,
{
    match op {
        Some(o) => Some(o.duplicate()),
        None => None,
    }
}

impl NexusSpec {
    /// A nexus spec, for a create request, that is waiting to be created.
    pub open spec fn requested(r: CreateNexus) -> NexusSpecView {
        NexusSpecView {
            uuid: r.uuid,
            node: r.node,
            children: id_views(r.children@),
            size: r.size,
            state: SpecState::Creating,
            share: Protocol::Off,
            managed: r.managed,
            owner: r.owner,
            updating: false,
            operation: None,
        }
    }

    /// Whether a create request asks for exactly this spec.
    pub fn eq(&self, other: &CreateNexus) -> (r: bool)
        ensures
            r == nexus_matches(self@, *other),
    {
        self.uuid.eq(&other.uuid) && self.node.eq(&other.node) && same_ids(
            &self.children,
            &other.children,
        ) && self.size == other.size && self.share == Protocol::Off && self.managed
            == other.managed && same_opt_id(&self.owner, &other.owner) && self.operation.is_none()
    }

    /// Log an operation as in flight.
    pub fn start_op(&mut self, operation: NexusOperation)
        ensures
            final(self)@ == nexus_started(old(self)@, operation),
    {
        self.updating = true;
        self.operation = Some(NexusOperationState { operation, result: None });
    }

    /// Whether the spec satisfies the engine's invariant, as every spec that
    /// the engine works on must.
    pub fn well_formed(&self) -> (r: bool)
        ensures
            r == spec_wf::<NexusSpec>(self@),
    {
        match &self.operation {
            Some(op) => match &op.operation {
                NexusOperation::Unknown => false,
                NexusOperation::Create => self.state.creating(),
                NexusOperation::AddChild(uri) => !has_child(&self.children, uri),
                _ => true,
            },
            None => !self.updating,
        }
    }

    /// Whether an operation is pending.
    pub fn pending_op(&self) -> (r: bool)
        ensures
            r == self.operation is Some,
    {
        self.operation.is_some()
    }
}

impl SpecOperations for NexusSpec {
    type Create = CreateNexus;
    type State = NexusStatus;
    type Status = BusNexus;
    type UpdateOp = NexusOperation;

    open spec fn state_of(m: NexusSpecView) -> NexusSpecState {
        m.state
    }

    open spec fn updating_of(m: NexusSpecView) -> bool {
        m.updating
    }

    open spec fn pending_of(m: NexusSpecView) -> Option<Option<bool>> {
        match m.operation {
            Some(op) => Some(op.result),
            None => None,
        }
    }

    open spec fn creating_op(m: NexusSpecView) -> bool {
        m.operation matches Some(op) && op.operation is Create
    }

    open spec fn owned_of(m: NexusSpecView) -> bool {
        false
    }

    open spec fn kind_of(m: NexusSpecView) -> ResourceKind {
        ResourceKind::Nexus
    }

    open spec fn id_of(m: NexusSpecView) -> String {
        m.uuid
    }

    open spec fn matches_request(m: NexusSpecView, request: CreateNexus) -> bool {
        nexus_matches(m, request)
    }

    open spec fn synced_with(m: NexusSpecView, status: BusNexus) -> bool {
        true
    }

    open spec fn update_refusal(
        m: NexusSpecView,
        status: BusNexus,
        op: NexusOperation,
    ) -> Option<SvcError> {
        nexus_update_refusal(m, op)
    }

    open spec fn kind_wf(m: NexusSpecView) -> bool {
        match m.operation {
            Some(op) => match op.operation {
                NexusOperation::Unknown => false,
                NexusOperation::AddChild(uri) => !m.children.contains(uri@),
                _ => true,
            },
            None => true,
        }
    }

    open spec fn create_started(m: NexusSpecView) -> NexusSpecView {
        nexus_started(m, NexusOperation::Create)
    }

    open spec fn destroy_started(m: NexusSpecView) -> NexusSpecView {
        nexus_started(m, NexusOperation::Destroy)
    }

    open spec fn update_started(m: NexusSpecView, op: NexusOperation) -> NexusSpecView {
        nexus_started(m, op)
    }

    open spec fn committed(m: NexusSpecView) -> NexusSpecView {
        nexus_committed(m)
    }

    open spec fn cleared(m: NexusSpecView) -> NexusSpecView {
        nexus_cleared(m)
    }

    open spec fn with_result(m: NexusSpecView, result: bool) -> NexusSpecView {
        NexusSpecView {
            operation: match m.operation {
                Some(op) => Some(NexusOperationState { result: Some(result), ..op }),
                None => None,
            },
            updating: false,
            ..m
        }
    }

    open spec fn with_state(m: NexusSpecView, state: NexusSpecState) -> NexusSpecView {
        NexusSpecView { state, ..m }
    }

    proof fn lemma_transitions(m: NexusSpecView) {
    }

    proof fn lemma_kind_wf(m: NexusSpecView) {
    }

    fn updating(&self) -> bool {
        self.updating
    }

    fn dirty(&self) -> bool {
        match &self.operation {
            Some(op) => op.result.is_some(),
            None => false,
        }
    }

    fn has_pending_op(&self) -> bool {
        self.operation.is_some()
    }

    fn pending_result(&self) -> Option<bool> {
        match &self.operation {
            Some(op) => op.result,
            None => None,
        }
    }

    fn kind(&self) -> ResourceKind {
        ResourceKind::Nexus
    }

    fn uuid(&self) -> String {
        self.uuid.clone()
    }

    fn state(&self) -> NexusSpecState {
        self.state
    }

    fn set_state(&mut self, state: NexusSpecState) {
        self.state = state;
    }

    fn owned(&self) -> bool {
        false
    }

    fn matches(&self, request: &CreateNexus) -> bool {
        self.eq(request)
    }

    fn status_synced(&self, status: &BusNexus) -> bool {
        true
    }

    fn duplicate(&self) -> NexusSpec {
        NexusSpec {
            uuid: self.uuid.clone(),
            node: self.node.clone(),
            children: clone_ids(&self.children),
            size: self.size,
            state: self.state,
            share: self.share,
            managed: self.managed,
            owner: clone_opt_id(&self.owner),
            updating: self.updating,
            operation: duplicate_op(&self.operation),
        }
    }

    fn start_create_op(&mut self) {
        self.start_op(NexusOperation::Create);
    }

    fn start_destroy_op(&mut self) {
        self.start_op(NexusOperation::Destroy);
    }

    fn start_update_op(&mut self, status: &BusNexus, op: NexusOperation) -> Result<
        (),
        SvcError,
    > {
        match &op {
            NexusOperation::Share(_) => {
                if self.share != Protocol::Off {
                    return Err(
                        SvcError::AlreadyShared {
                            kind: ResourceKind::Nexus,
                            id: self.uuid.clone(),
                            share: self.share,
                        },
                    );
                }
            },
            NexusOperation::Unshare => {
                if self.share == Protocol::Off {
                    return Err(
                        SvcError::NotShared { kind: ResourceKind::Nexus, id: self.uuid.clone() },
                    );
                }
            },
            NexusOperation::AddChild(uri) => {
                if has_child(&self.children, uri) {
                    return Err(
                        SvcError::ChildAlreadyExists { nexus: self.uuid.clone(), child: uri.clone() },
                    );
                }
            },
            NexusOperation::RemoveChild(uri) => {
                if !has_child(&self.children, uri) {
                    return Err(
                        SvcError::ChildNotFound { nexus: self.uuid.clone(), child: uri.clone() },
                    );
                }
            },
            _ => {
                return Err(SvcError::InvalidArguments {  });
            },
        }
        self.start_op(op);
        Ok(())
    }

    fn commit_op(&mut self) {
        if let Some(op) = duplicate_op(&self.operation) {
            match op.operation {
                NexusOperation::Unknown => {},
                NexusOperation::Destroy => {
                    self.state = SpecState::Deleted;
                },
                NexusOperation::Create => {
                    self.state = SpecState::Created(NexusStatus::Online);
                },
                NexusOperation::Share(share) => {
                    self.share = Protocol::from(share);
                },
                NexusOperation::Unshare => {
                    self.share = Protocol::Off;
                },
                NexusOperation::AddChild(uri) => {
                    let ghost before = self.children@;
                    let ghost u = uri;
                    self.children.push(uri);
                    proof {
                        assert(id_views(self.children@) =~= id_views(before).push(u@));
                    }
                },
                NexusOperation::RemoveChild(uri) => {
                    self.children = retain_other_children(&self.children, &uri);
                },
            }
        }
        self.clear_op();
    }

    fn clear_op(&mut self) {
        self.operation = None;
        self.updating = false;
    }

    fn set_op_result(&mut self, result: bool) {
        match &mut self.operation {
            Some(op) => {
                op.result = Some(result);
            },
            None => {},
        }
        self.updating = false;
    }
}

/// Key used by the store to uniquely identify a NexusSpec structure.
#[derive(Clone, Debug, PartialEq)]
pub struct NexusSpecKey(pub NexusId);

impl From<&NexusId> for NexusSpecKey {
    fn from(id: &NexusId) -> (r: NexusSpecKey)
        ensures
            r.0 == *id,
    {
        NexusSpecKey(id.clone())
    }
}

impl vstd::std_specs::convert::FromSpecImpl<&NexusId> for NexusSpecKey {
    open spec fn obeys_from_spec() -> bool {
        true
    }

    open spec fn from_spec(v: &NexusId) -> NexusSpecKey {
        NexusSpecKey(*v)
    }
}

impl ObjectKey for NexusSpecKey {
    open spec fn spec_key_type(&self) -> StorableObjectType {
        StorableObjectType::NexusSpec
    }

    open spec fn spec_key_uuid(&self) -> Seq<char> {
        self.0@
    }

    fn key_type(&self) -> StorableObjectType {
        StorableObjectType::NexusSpec
    }

    fn key_uuid(&self) -> String {
        self.0.clone()
    }
}

impl NexusSpecKey {
    /// The full key: the type name, a slash and the uuid.
    pub fn key(&self) -> (r: String)
        ensures
            r@ == store_key(self.spec_key_type(), self.spec_key_uuid()),
    {
        get_key(self)
    }
}

impl StorableObject for NexusSpec {
    type Key = NexusSpecKey;

    open spec fn spec_key(&self) -> NexusSpecKey {
        NexusSpecKey(self.uuid)
    }

    fn key(&self) -> NexusSpecKey {
        NexusSpecKey(self.uuid.clone())
    }
}

impl From<&CreateNexus> for NexusSpec {
    fn from(request: &CreateNexus) -> (r: NexusSpec)
        ensures
            r@ == NexusSpec::requested(*request),
    {
        NexusSpec {
            uuid: request.uuid.clone(),
            node: request.node.clone(),
            children: clone_ids(&request.children),
            size: request.size,
            state: SpecState::Creating,
            share: Protocol::Off,
            managed: request.managed,
            owner: clone_opt_id(&request.owner),
            updating: false,
            operation: None,
        }
    }
}

/// The spec is stated by its view in `from`'s own contract.
impl vstd::std_specs::convert::FromSpecImpl<&CreateNexus> for NexusSpec {
    open spec fn obeys_from_spec() -> bool {
        false
    }

    open spec fn from_spec(v: &CreateNexus) -> NexusSpec {
        arbitrary()
    }
}

/// The bus view of a nexus spec: each child in an unknown state, no device,
/// no rebuilds, and the nexus state unknown.
impl From<&NexusSpec> for BusNexus {
    fn from(nexus: &NexusSpec) -> (r: BusNexus)
        ensures
            r.node == nexus.node,
            r.uuid == nexus.uuid,
            r.size == nexus.size,
            r.state == NexusStatus::Unknown,
            r.children@.len() == nexus.children@.len(),
            forall|i: int|
                0 <= i < r.children@.len() ==> (#[trigger] r.children@[i]).uri == nexus.children@[i]
                    && r.children@[i].state == ChildState::Unknown
                    && r.children@[i].rebuild_progress is None,
            r.device_uri@.len() == 0,
            r.rebuilds == 0,
            r.share == nexus.share,
    {
        let mut children: Vec<Child> = Vec::new();
        let mut i: usize = 0;
        while i < nexus.children.len()
            invariant
                i <= nexus.children@.len(),
                children@.len() == i,
                forall|j: int|
                    0 <= j < i ==> (#[trigger] children@[j]).uri == nexus.children@[j]
                        && children@[j].state == ChildState::Unknown
                        && children@[j].rebuild_progress is None,
            decreases nexus.children@.len() - i,
        {
            children.push(
                Child { uri: nexus.children[i].clone(), state: ChildState::Unknown, rebuild_progress: None },
            );
            i = i + 1;
        }
        BusNexus {
            node: nexus.node.clone(),
            uuid: nexus.uuid.clone(),
            size: nexus.size,
            state: NexusStatus::Unknown,
            children,
            device_uri: String::new(),
            rebuilds: 0,
            share: nexus.share,
        }
    }
}

/// Text fields are stated by their views in `from`'s own contract.
impl vstd::std_specs::convert::FromSpecImpl<&NexusSpec> for BusNexus {
    open spec fn obeys_from_spec() -> bool {
        false
    }

    open spec fn from_spec(v: &NexusSpec) -> BusNexus {
        arbitrary()
    }
}

impl From<NexusSpec> for DestroyNexus {
    fn from(nexus: NexusSpec) -> (r: DestroyNexus)
        ensures
            r.node == nexus.node,
            r.uuid == nexus.uuid,
    {
        DestroyNexus { node: nexus.node, uuid: nexus.uuid }
    }
}

impl vstd::std_specs::convert::FromSpecImpl<NexusSpec> for DestroyNexus {
    open spec fn obeys_from_spec() -> bool {
        true
    }

    open spec fn from_spec(v: NexusSpec) -> DestroyNexus {
        DestroyNexus { node: v.node, uuid: v.uuid }
    }
}

impl UuidString for NexusState {
    open spec fn uuid_text(&self) -> Seq<char> {
        self.nexus.uuid@
    }

    fn uuid_as_string(&self) -> String {
        self.nexus.uuid.clone()
    }
}

impl UuidString for NexusSpec {
    open spec fn uuid_text(&self) -> Seq<char> {
        self.uuid@
    }

    fn uuid_as_string(&self) -> String {
        self.uuid.clone()
    }
}

} // verus!
