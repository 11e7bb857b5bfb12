//! Request and reply types exchanged over the message bus.

use vstd::prelude::*;

verus! {

/// Identifier of a data-plane node.
pub type NodeId = String;

/// Identifier of a pool.
pub type PoolId = String;

/// Identifier of a replica.
pub type ReplicaId = String;

/// Identifier of a nexus.
pub type NexusId = String;

/// Identifier of a volume.
pub type VolumeId = String;

/// URI of a nexus child.
pub type ChildUri = String;

/// Protocol over which a resource is exposed.
#[derive(Clone, Copy, Debug, PartialEq, Eq, Structural)]
pub enum Protocol {
    /// not shared
    Off,
    /// shared as NVMe-oF TCP
    Nvmf,
    /// shared as iSCSI
    Iscsi,
}

/// Name of a protocol.
pub open spec fn protocol_name(p: Protocol) -> Seq<char> {
    match p {
        Protocol::Off => "off"@,
        Protocol::Nvmf => "nvmf"@,
        Protocol::Iscsi => "iscsi"@,
    }
}

impl Protocol {
    /// Name of this protocol.
    pub fn name(&self) -> (r: &'static str)
        ensures
            r@ == protocol_name(*self),
    {
        match self {
            Protocol::Off => "off",
            Protocol::Nvmf => "nvmf",
            Protocol::Iscsi => "iscsi",
        }
    }
}

impl Default for Protocol {
    fn default() -> (r: Self)
        ensures
            r == Protocol::Off,
    {
        Protocol::Off
    }
}

/// The protocol used to share a replica.
#[derive(Clone, Copy, Debug, PartialEq, Eq, Structural)]
pub enum ReplicaShareProtocol {
    /// shared as NVMe-oF TCP
    Nvmf,
}

impl Default for ReplicaShareProtocol {
    fn default() -> (r: Self)
        ensures
            r == ReplicaShareProtocol::Nvmf,
    {
        ReplicaShareProtocol::Nvmf
    }
}

impl ReplicaShareProtocol {
    /// The share protocol with the given wire code; only code 1 (NVMe-oF) exists.
    pub fn from_i32(src: i32) -> (r: Self)
        requires
            src == 1,
        ensures
            r == ReplicaShareProtocol::Nvmf,
    {
        ReplicaShareProtocol::Nvmf
    }

    /// Whether this share protocol is the given general protocol.
    pub fn eq_protocol(&self, other: &Protocol) -> (r: bool)
        ensures
            r == (replica_share_protocol(*self) == *other),
    {
        let p = Protocol::from(*self);
        p == *other
    }
}

/// The general protocol that a replica share protocol stands for.
pub open spec fn replica_share_protocol(p: ReplicaShareProtocol) -> Protocol {
    match p {
        ReplicaShareProtocol::Nvmf => Protocol::Nvmf,
    }
}

impl From<ReplicaShareProtocol> for Protocol {
    fn from(src: ReplicaShareProtocol) -> (r: Protocol)
        ensures
            r == replica_share_protocol(src),
    {
        match src {
            ReplicaShareProtocol::Nvmf => Protocol::Nvmf,
        }
    }
}

impl vstd::std_specs::convert::FromSpecImpl<ReplicaShareProtocol> for Protocol {
    open spec fn obeys_from_spec() -> bool {
        true
    }

    open spec fn from_spec(v: ReplicaShareProtocol) -> Protocol {
        replica_share_protocol(v)
    }
}

/// The protocol used to share a nexus.
#[derive(Clone, Copy, Debug, PartialEq, Eq, Structural)]
pub enum NexusShareProtocol {
    /// shared as NVMe-oF TCP
    Nvmf,
    /// shared as iSCSI
    Iscsi,
}

/// The general protocol that a nexus share protocol stands for.
pub open spec fn nexus_share_protocol(p: NexusShareProtocol) -> Protocol {
    match p {
        NexusShareProtocol::Nvmf => Protocol::Nvmf,
        NexusShareProtocol::Iscsi => Protocol::Iscsi,
    }
}

impl From<NexusShareProtocol> for Protocol {
    fn from(src: NexusShareProtocol) -> (r: Protocol)
        ensures
            r == nexus_share_protocol(src),
    {
        match src {
            NexusShareProtocol::Nvmf => Protocol::Nvmf,
            NexusShareProtocol::Iscsi => Protocol::Iscsi,
        }
    }
}

impl vstd::std_specs::convert::FromSpecImpl<NexusShareProtocol> for Protocol {
    open spec fn obeys_from_spec() -> bool {
        true
    }

    open spec fn from_spec(v: NexusShareProtocol) -> Protocol {
        nexus_share_protocol(v)
    }
}

/// Runtime state of a replica.
#[derive(Clone, Copy, Debug, PartialEq, Eq, Structural)]
pub enum ReplicaState {
    /// unknown state
    Unknown,
    /// the replica is in normal working order
    Online,
    /// the replica has experienced a failure but can still function
    Degraded,
    /// the replica is completely inaccessible
    Faulted,
}

impl Default for ReplicaState {
    fn default() -> (r: Self)
        ensures
            r == ReplicaState::Unknown,
    {
        ReplicaState::Unknown
    }
}

/// Replica state for a wire code: 1 online, 2 degraded, 3 faulted, anything else unknown.
pub open spec fn replica_state_of(src: i32) -> ReplicaState {
    if src == 1 {
        ReplicaState::Online
    } else if src == 2 {
        ReplicaState::Degraded
    } else if src == 3 {
        ReplicaState::Faulted
    } else {
        ReplicaState::Unknown
    }
}

impl From<i32> for ReplicaState {
    fn from(src: i32) -> (r: ReplicaState)
        ensures
            r == replica_state_of(src),
    {
        match src {
            1 => ReplicaState::Online,
            2 => ReplicaState::Degraded,
            3 => ReplicaState::Faulted,
            _ => ReplicaState::Unknown,
        }
    }
}

impl vstd::std_specs::convert::FromSpecImpl<i32> for ReplicaState {
    open spec fn obeys_from_spec() -> bool {
        true
    }

    open spec fn from_spec(v: i32) -> ReplicaState {
        replica_state_of(v)
    }
}

/// Runtime state of a nexus.
#[derive(Clone, Copy, Debug, PartialEq, Eq, Structural)]
pub enum NexusState {
    /// unknown state
    Unknown,
    /// the nexus is in normal working order
    Online,
    /// the nexus has lost a child but can still serve I/O
    Degraded,
    /// the nexus is completely inaccessible
    Faulted,
}

impl Default for NexusState {
    fn default() -> (r: Self)
        ensures
            r == NexusState::Unknown,
    {
        NexusState::Unknown
    }
}


/// The text of each identifier of a list.
pub open spec fn id_views(ids: Seq<String>) -> Seq<Seq<char>> {
    ids.map_values(|s: String| s@)
}

/// Whether two lists hold the same identifiers in the same order.
pub fn same_ids(a: &Vec<String>, b: &Vec<String>) -> (r: bool)
    ensures
        r == (id_views(a@) == id_views(b@)),
{
    if a.len() != b.len() {
        proof {
            assert(id_views(a@).len() != id_views(b@).len());
        }
        return false;
    }
    let mut i: usize = 0;
    while i < a.len()
        invariant
            a@.len() == b@.len(),
            i <= a@.len(),
            forall|j: int| 0 <= j < i ==> a@[j]@ == b@[j]@,
        decreases a@.len() - i,
    {
        if !a[i].eq(&b[i]) {
            proof {
                assert(id_views(a@)[i as int] != id_views(b@)[i as int]);
            }
            return false;
        }
        i = i + 1;
    }
    proof {
        assert(id_views(a@) =~= id_views(b@));
    }
    true
}

/// Whether two optional identifiers hold the same text.
pub fn same_opt_id(a: &Option<String>, b: &Option<String>) -> (r: bool)
    ensures
        r == (match (a, b) {
            (Some(x), Some(y)) => x@ == y@,
            (None, None) => true,
            _ => false,
        }),
{
    match (a, b) {
        (Some(x), Some(y)) => x.eq(y),
        (None, None) => true,
        _ => false,
    }
}

/// A copy of a list of identifiers.
pub fn clone_ids(v: &Vec<String>) -> (r: Vec<String>)
    ensures
        r@ == v@,
{
    let mut r: Vec<String> = Vec::new();
    let mut i: usize = 0;
    while i < v.len()
        invariant
            i <= v@.len(),
            r@ == v@.subrange(0, i as int),
        decreases v@.len() - i,
    {
        r.push(v[i].clone());
        i = i + 1;
    }
    assert(r@ =~= v@);
    r
}

/// A copy of an optional identifier.
pub fn clone_opt_id(v: &Option<String>) -> (r: Option<String>)
    ensures
        r == *v,
{
    match v {
        Some(s) => Some(s.clone()),
        None => None,
    }
}

/// Replica owners: a volume, or none, and a list of nexuses.
#[derive(Clone, Debug, PartialEq)]
pub struct ReplicaOwners {
    pub volume: Option<VolumeId>,
    pub nexuses: Vec<NexusId>,
}

impl Default for ReplicaOwners {
    fn default() -> (r: Self)
        ensures
            r.volume is None,
            r.nexuses@.len() == 0,
    {
        ReplicaOwners { volume: None, nexuses: Vec::new() }
    }
}

impl ReplicaOwners {
    /// Owned by a volume or by at least one nexus.
    pub open spec fn spec_is_owned(&self) -> bool {
        self.volume is Some || self.nexuses@.len() > 0
    }

    /// Check if this replica is owned by any nexuses or a volume
    pub fn is_owned(&self) -> (r: bool)
        ensures
            r == self.spec_is_owned(),
    {
        self.volume.is_some() || !self.nexuses.is_empty()
    }

    /// Check if this replica is owned by this volume
    pub fn owned_by(&self, id: &VolumeId) -> (r: bool)
        ensures
            r == (self.volume matches Some(v) && v@ == id@),
    {
        match &self.volume {
            Some(v) => v.eq(id),
            None => false,
        }
    }

    /// Create new owners from the volume Id
    pub fn new(volume: &VolumeId) -> (r: Self)
        ensures
            r.volume == Some(*volume),
            r.nexuses@.len() == 0,
    {
        ReplicaOwners { volume: Some(volume.clone()), nexuses: Vec::new() }
    }

    /// The replica is no longer part of the volume
    pub fn disowned_by_volume(&mut self)
        ensures
            final(self).volume is None,
            final(self).nexuses == old(self).nexuses,
    {
        let _ = self.volume.take();
    }

    /// A copy of these owners.
    pub fn duplicate(&self) -> (r: Self)
        ensures
            r.volume == self.volume,
            r.nexuses@ == self.nexuses@,
    {
        ReplicaOwners { volume: clone_opt_id(&self.volume), nexuses: clone_ids(&self.nexuses) }
    }
}

/// Filter applied by the list verbs.
#[derive(Clone, Debug, PartialEq)]
pub enum Filter {
    /// no filter: every resource
    All,
    Node(NodeId),
    Pool(PoolId),
    NodePool(NodeId, PoolId),
    Volume(VolumeId),
    NodeVolume(NodeId, VolumeId),
    Replica(ReplicaId),
    NodeReplica(NodeId, ReplicaId),
    PoolReplica(PoolId, ReplicaId),
    NodePoolReplica(NodeId, PoolId, ReplicaId),
    Nexus(NexusId),
    NodeNexus(NodeId, NexusId),
}

impl Default for Filter {
    fn default() -> (r: Self)
        ensures
            r is All,
    {
        Filter::All
    }
}

/// Get all the replicas from specific node and pool
/// or None for all nodes or all pools
#[derive(Clone, Debug, Default)]
pub struct GetReplicas {
    /// Filter request
    pub filter: Filter,
}

/// Replica information
#[derive(Clone, Debug, Default, PartialEq)]
pub struct Replica {
    /// id of the io-engine instance
    pub node: NodeId,
    /// uuid of the replica
    pub uuid: ReplicaId,
    /// id of the pool
    pub pool: PoolId,
    /// thin provisioning
    pub thin: bool,
    /// size of the replica in bytes
    pub size: u64,
    /// protocol used for exposing the replica
    pub share: Protocol,
    /// uri usable by nexus to access it
    pub uri: String,
    /// state of the replica
    pub state: ReplicaState,
}

/// Create Replica Request
#[derive(Clone, Debug, Default, PartialEq)]
pub struct CreateReplica {
    /// id of the io-engine instance
    pub node: NodeId,
    /// uuid of the replica
    pub uuid: ReplicaId,
    /// id of the pool
    pub pool: PoolId,
    /// size of the replica in bytes
    pub size: u64,
    /// thin provisioning
    pub thin: bool,
    /// protocol to expose the replica over
    pub share: Protocol,
    /// Managed by our control plane
    pub managed: bool,
    /// Owners of the resource
    pub owners: ReplicaOwners,
}

/// Destroy Replica Request
#[derive(Clone, Debug, Default, PartialEq)]
pub struct DestroyReplica {
    /// id of the io-engine instance
    pub node: NodeId,
    /// id of the pool
    pub pool: PoolId,
    /// uuid of the replica
    pub uuid: ReplicaId,
}

/// Share Replica Request
#[derive(Clone, Debug, Default, PartialEq)]
pub struct ShareReplica {
    /// id of the io-engine instance
    pub node: NodeId,
    /// id of the pool
    pub pool: PoolId,
    /// uuid of the replica
    pub uuid: ReplicaId,
    /// protocol used for exposing the replica
    pub protocol: ReplicaShareProtocol,
}

/// Unshare Replica Request
#[derive(Clone, Debug, Default, PartialEq)]
pub struct UnshareReplica {
    /// id of the io-engine instance
    pub node: NodeId,
    /// id of the pool
    pub pool: PoolId,
    /// uuid of the replica
    pub uuid: ReplicaId,
}

impl From<Replica> for DestroyReplica {
    fn from(replica: Replica) -> (r: DestroyReplica)
        ensures
            r.node == replica.node,
            r.pool == replica.pool,
            r.uuid == replica.uuid,
    {
        DestroyReplica { node: replica.node, pool: replica.pool, uuid: replica.uuid }
    }
}

impl vstd::std_specs::convert::FromSpecImpl<Replica> for DestroyReplica {
    open spec fn obeys_from_spec() -> bool {
        true
    }

    open spec fn from_spec(v: Replica) -> DestroyReplica {
        DestroyReplica { node: v.node, pool: v.pool, uuid: v.uuid }
    }
}

impl From<ShareReplica> for UnshareReplica {
    fn from(share: ShareReplica) -> (r: UnshareReplica)
        ensures
            r.node == share.node,
            r.pool == share.pool,
            r.uuid == share.uuid,
    {
        UnshareReplica { node: share.node, pool: share.pool, uuid: share.uuid }
    }
}

impl vstd::std_specs::convert::FromSpecImpl<ShareReplica> for UnshareReplica {
    open spec fn obeys_from_spec() -> bool {
        true
    }

    open spec fn from_spec(v: ShareReplica) -> UnshareReplica {
        UnshareReplica { node: v.node, pool: v.pool, uuid: v.uuid }
    }
}

impl From<UnshareReplica> for ShareReplica {
    fn from(unshare: UnshareReplica) -> (r: ShareReplica)
        ensures
            r.node == unshare.node,
            r.pool == unshare.pool,
            r.uuid == unshare.uuid,
            r.protocol == ReplicaShareProtocol::Nvmf,
    {
        ShareReplica {
            node: unshare.node,
            pool: unshare.pool,
            uuid: unshare.uuid,
            protocol: ReplicaShareProtocol::Nvmf,
        }
    }
}

impl vstd::std_specs::convert::FromSpecImpl<UnshareReplica> for ShareReplica {
    open spec fn obeys_from_spec() -> bool {
        true
    }

    open spec fn from_spec(v: UnshareReplica) -> ShareReplica {
        ShareReplica { node: v.node, pool: v.pool, uuid: v.uuid, protocol: ReplicaShareProtocol::Nvmf }
    }
}

impl From<&Replica> for ShareReplica {
    fn from(from: &Replica) -> (r: ShareReplica)
        ensures
            r.node == from.node,
            r.pool == from.pool,
            r.uuid == from.uuid,
            r.protocol == ReplicaShareProtocol::Nvmf,
    {
        ShareReplica {
            node: from.node.clone(),
            pool: from.pool.clone(),
            uuid: from.uuid.clone(),
            protocol: ReplicaShareProtocol::Nvmf,
        }
    }
}

impl vstd::std_specs::convert::FromSpecImpl<&Replica> for ShareReplica {
    open spec fn obeys_from_spec() -> bool {
        true
    }

    open spec fn from_spec(v: &Replica) -> ShareReplica {
        ShareReplica {
            node: v.node,
            pool: v.pool,
            uuid: v.uuid,
            protocol: ReplicaShareProtocol::Nvmf,
        }
    }
}

impl From<&Replica> for UnshareReplica {
    fn from(from: &Replica) -> (r: UnshareReplica)
        ensures
            r.node == from.node,
            r.pool == from.pool,
            r.uuid == from.uuid,
    {
        UnshareReplica { node: from.node.clone(), pool: from.pool.clone(), uuid: from.uuid.clone() }
    }
}

impl vstd::std_specs::convert::FromSpecImpl<&Replica> for UnshareReplica {
    open spec fn obeys_from_spec() -> bool {
        true
    }

    open spec fn from_spec(v: &Replica) -> UnshareReplica {
        UnshareReplica { node: v.node, pool: v.pool, uuid: v.uuid }
    }
}

/// Create Nexus Request
#[derive(Clone, Debug, Default, PartialEq)]
pub struct CreateNexus {
    /// id of the io-engine instance
    pub node: NodeId,
    /// the nexus uuid
    pub uuid: NexusId,
    /// size of the device in bytes
    pub size: u64,
    /// replica URIs that become the nexus children
    pub children: Vec<ChildUri>,
    /// Managed by our control plane
    pub managed: bool,
    /// Volume which owns this nexus, if any
    pub owner: Option<VolumeId>,
}

/// State of a nexus child.
#[derive(Clone, Copy, Debug, PartialEq, Eq, Structural)]
pub enum ChildState {
    /// unknown state
    Unknown,
    /// healthy and contains the latest bits
    Online,
    /// rebuild is in progress (or other recoverable error)
    Degraded,
    /// unrecoverable error (control plane must act)
    Faulted,
}

/// Child information
#[derive(Clone, Debug, PartialEq)]
pub struct Child {
    /// uri of the child device
    pub uri: ChildUri,
    /// state of the child
    pub state: ChildState,
    /// current rebuild progress (%)
    pub rebuild_progress: Option<i32>,
}

/// Nexus information
#[derive(Clone, Debug, PartialEq)]
pub struct Nexus {
    /// id of the io-engine instance
    pub node: NodeId,
    /// uuid of the nexus
    pub uuid: NexusId,
    /// size of the volume in bytes
    pub size: u64,
    /// current state of the nexus
    pub state: NexusState,
    /// array of children
    pub children: Vec<Child>,
    /// URI of the device for the volume (missing if not published).
    pub device_uri: String,
    /// total number of rebuild tasks
    pub rebuilds: u32,
    /// protocol used for exposing the nexus
    pub share: Protocol,
}

/// Runtime state of a pool.
#[derive(Clone, Copy, Debug, PartialEq, Eq, Structural)]
pub enum PoolState {
    /// unknown state
    Unknown,
    /// the pool is in normal working order
    Online,
    /// the pool has experienced a failure but can still function
    Degraded,
    /// the pool is completely inaccessible
    Faulted,
}

/// Pool information
#[derive(Clone, Debug, PartialEq)]
pub struct Pool {
    /// id of the io-engine instance
    pub node: NodeId,
    /// id of the pool
    pub id: PoolId,
    /// absolute disk paths claimed by the pool
    pub disks: Vec<String>,
    /// current state of the pool
    pub state: PoolState,
    /// size of the pool in bytes
    pub capacity: u64,
    /// used bytes from the pool
    pub used: u64,
}

/// Share Nexus Request
#[derive(Clone, Debug, PartialEq)]
pub struct ShareNexus {
    /// id of the io-engine instance
    pub node: NodeId,
    /// uuid of the nexus
    pub uuid: NexusId,
    /// encryption key
    pub key: Option<String>,
    /// share protocol
    pub protocol: NexusShareProtocol,
}

/// Unshare Nexus Request
#[derive(Clone, Debug, PartialEq)]
pub struct UnshareNexus {
    /// id of the io-engine instance
    pub node: NodeId,
    /// uuid of the nexus
    pub uuid: NexusId,
}

/// Destroy Nexus Request
#[derive(Clone, Debug, Default, PartialEq)]
pub struct DestroyNexus {
    /// id of the io-engine instance
    pub node: NodeId,
    /// uuid of the nexus
    pub uuid: NexusId,
}

} // verus!
