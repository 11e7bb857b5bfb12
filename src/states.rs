//! Snapshot of the last observed runtime state of pools, replicas and nexuses.
//! It is never authoritative: the store and the spec engine are.

use vstd::prelude::*;
use crate::message_bus::{Nexus as BusNexus, Pool, PoolId, Replica as BusReplica};
use crate::nexus::NexusState;
use crate::replica::ReplicaState;
use crate::resource_map::{locked_copy, ResourceMap, UuidString};

verus! {

/// Runtime state of a pool.
#[derive(Clone, Debug, PartialEq)]
pub struct PoolState {
    /// Pool information.
    pub pool: Pool,
}

impl UuidString for PoolState {
    open spec fn uuid_text(&self) -> Seq<char> {
        self.pool.id@
    }

    fn uuid_as_string(&self) -> PoolId {
        self.pool.id.clone()
    }
}

/// Resource States
pub struct ResourceStates {
    nexuses: ResourceMap<NexusState>,
    pools: ResourceMap<PoolState>,
    replicas: ResourceMap<ReplicaState>,
}

/// Copies of what each handle of a list holds.
fn cloned_inner_states<S: Clone>(locked_states: Vec<crate::resource_map::Handle<S>>) -> (r: Vec<S>)
    ensures
        r@.len() == locked_states@.len(),
{
    let mut r: Vec<S> = Vec::new();
    let mut i: usize = 0;
    while i < locked_states.len()
        invariant
            i <= locked_states@.len(),
            r@.len() == i,
        decreases locked_states@.len() - i,
    {
        r.push(locked_copy(&locked_states[i]));
        i = i + 1;
    }
    r
}

impl ResourceStates {
    /// Every map is well formed.
    pub closed spec fn wf(&self) -> bool {
        self.nexuses.wf() && self.pools.wf() && self.replicas.wf()
    }

    /// Uuids of the replicas whose state is held.
    pub closed spec fn replica_ids(&self) -> Set<Seq<char>> {
        self.replicas@.dom()
    }

    /// Uuids of the nexuses whose state is held.
    pub closed spec fn nexus_ids(&self) -> Set<Seq<char>> {
        self.nexuses@.dom()
    }

    /// Ids of the pools whose state is held.
    pub closed spec fn pool_ids(&self) -> Set<Seq<char>> {
        self.pools@.dom()
    }

    /// No state observed yet.
    pub fn new() -> (r: Self)
        ensures
            r.wf(),
            r.replica_ids().is_empty(),
            r.nexus_ids().is_empty(),
            r.pool_ids().is_empty(),
    {
        ResourceStates { nexuses: ResourceMap::new(), pools: ResourceMap::new(), replicas: ResourceMap::new() }
    }

    /// Update the various resource states: each kind's snapshot is replaced by
    /// the observed resources.
    pub fn update(&mut self, pools: Vec<Pool>, replicas: Vec<BusReplica>, nexuses: Vec<BusNexus>)
        ensures
            final(self).wf(),
            forall|k: Seq<char>|
                final(self).replica_ids().contains(k) <==> exists|i: int|
                    0 <= i < replicas@.len() && (#[trigger] replicas@[i]).uuid@ == k,
            forall|k: Seq<char>|
                final(self).pool_ids().contains(k) <==> exists|i: int|
                    0 <= i < pools@.len() && (#[trigger] pools@[i]).id@ == k,
            forall|k: Seq<char>|
                final(self).nexus_ids().contains(k) <==> exists|i: int|
                    0 <= i < nexuses@.len() && (#[trigger] nexuses@[i]).uuid@ == k,
    {
        let rs = Self::replica_states(replicas);
        self.replicas.update(rs);
        let ps = Self::pool_states(pools);
        self.pools.update(ps);
        let ns = Self::nexus_states(nexuses);
        self.nexuses.update(ns);
        proof {
            assert forall|k: Seq<char>|
                self.replica_ids().contains(k) <==> exists|i: int|
                    0 <= i < replicas@.len() && (#[trigger] replicas@[i]).uuid@ == k by {
                if self.replica_ids().contains(k) {
                    let i = choose|i: int| 0 <= i < rs@.len() && (#[trigger] rs@[i]).uuid_text() == k;
                    assert(replicas@[i].uuid@ == k);
                }
                if exists|i: int| 0 <= i < replicas@.len() && (#[trigger] replicas@[i]).uuid@ == k {
                    let i = choose|i: int| 0 <= i < replicas@.len() && (#[trigger] replicas@[i]).uuid@ == k;
                    assert(rs@[i].uuid_text() == k);
                }
            }
            assert forall|k: Seq<char>|
                self.pool_ids().contains(k) <==> exists|i: int|
                    0 <= i < pools@.len() && (#[trigger] pools@[i]).id@ == k by {
                if self.pool_ids().contains(k) {
                    let i = choose|i: int| 0 <= i < ps@.len() && (#[trigger] ps@[i]).uuid_text() == k;
                    assert(pools@[i].id@ == k);
                }
                if exists|i: int| 0 <= i < pools@.len() && (#[trigger] pools@[i]).id@ == k {
                    let i = choose|i: int| 0 <= i < pools@.len() && (#[trigger] pools@[i]).id@ == k;
                    assert(ps@[i].uuid_text() == k);
                }
            }
            assert forall|k: Seq<char>|
                self.nexus_ids().contains(k) <==> exists|i: int|
                    0 <= i < nexuses@.len() && (#[trigger] nexuses@[i]).uuid@ == k by {
                if self.nexus_ids().contains(k) {
                    let i = choose|i: int| 0 <= i < ns@.len() && (#[trigger] ns@[i]).uuid_text() == k;
                    assert(nexuses@[i].uuid@ == k);
                }
                if exists|i: int| 0 <= i < nexuses@.len() && (#[trigger] nexuses@[i]).uuid@ == k {
                    let i = choose|i: int| 0 <= i < nexuses@.len() && (#[trigger] nexuses@[i]).uuid@ == k;
                    assert(ns@[i].uuid_text() == k);
                }
            }
        }
    }

    /// Replica states for observed replicas, in order.
    fn replica_states(replicas: Vec<BusReplica>) -> (r: Vec<ReplicaState>)
        ensures
            r@.len() == replicas@.len(),
            forall|i: int| 0 <= i < r@.len() ==> (#[trigger] r@[i]).replica == replicas@[i] && r@[i].state == replicas@[i].state,
    {
        let mut r: Vec<ReplicaState> = Vec::new();
        let mut i: usize = 0;
        while i < replicas.len()
            invariant
                i <= replicas@.len(),
                r@.len() == i,
                forall|j: int| 0 <= j < i ==> (#[trigger] r@[j]).replica == replicas@[j] && r@[j].state == replicas@[j].state,
            decreases replicas@.len() - i,
        {
            let replica = &replicas[i];
            r.push(
                ReplicaState {
                    replica: BusReplica {
                        node: replica.node.clone(),
                        uuid: replica.uuid.clone(),
                        pool: replica.pool.clone(),
                        thin: replica.thin,
                        size: replica.size,
                        share: replica.share,
                        uri: replica.uri.clone(),
                        state: replica.state,
                    },
                    state: replica.state,
                },
            );
            i = i + 1;
        }
        r
    }

    /// Pool states for observed pools, in order.
    fn pool_states(pools: Vec<Pool>) -> (r: Vec<PoolState>)
        ensures
            r@.len() == pools@.len(),
            forall|i: int| 0 <= i < r@.len() ==> (#[trigger] r@[i]).pool.id == pools@[i].id,
    {
        let mut r: Vec<PoolState> = Vec::new();
        let mut rest = pools;
        let ghost all = rest@;
        let mut n: usize = 0;
        let count: usize = rest.len();
        while rest.len() > 0
            invariant
                n + rest@.len() == all.len(),
                count == all.len(),
                rest@ =~= all.subrange(n as int, all.len() as int),
                r@.len() == n,
                forall|j: int| 0 <= j < n ==> (#[trigger] r@[j]).pool.id == all[j].id,
            decreases rest@.len(),
        {
            let pool = rest.remove(0);
            proof {
                assert(pool == all[n as int]);
                assert(rest@ =~= all.subrange(n + 1, all.len() as int));
            }
            r.push(PoolState { pool });
            n = n + 1;
        }
        r
    }

    /// Nexus states for observed nexuses, in order.
    fn nexus_states(nexuses: Vec<BusNexus>) -> (r: Vec<NexusState>)
        ensures
            r@.len() == nexuses@.len(),
            forall|i: int| 0 <= i < r@.len() ==> (#[trigger] r@[i]).nexus.uuid == nexuses@[i].uuid,
    {
        let mut r: Vec<NexusState> = Vec::new();
        let mut rest = nexuses;
        let ghost all = rest@;
        let mut n: usize = 0;
        let count: usize = rest.len();
        while rest.len() > 0
            invariant
                n + rest@.len() == all.len(),
                count == all.len(),
                rest@ =~= all.subrange(n as int, all.len() as int),
                r@.len() == n,
                forall|j: int| 0 <= j < n ==> (#[trigger] r@[j]).nexus.uuid == all[j].uuid,
            decreases rest@.len(),
        {
            let nexus = rest.remove(0);
            proof {
                assert(nexus == all[n as int]);
                assert(rest@ =~= all.subrange(n + 1, all.len() as int));
            }
            r.push(NexusState { nexus });
            n = n + 1;
        }
        r
    }

    /// Returns a vector of nexus states, one per nexus held.
    pub fn get_nexus_states(&self) -> (r: Vec<NexusState>)
        requires
            self.wf(),
        ensures
            r@.len() == self.nexus_ids().len(),
    {
        cloned_inner_states(self.nexuses.to_vec())
    }

    /// Returns a vector of pool states, one per pool held.
    pub fn get_pool_states(&self) -> (r: Vec<PoolState>)
        requires
            self.wf(),
        ensures
            r@.len() == self.pool_ids().len(),
    {
        cloned_inner_states(self.pools.to_vec())
    }

    /// Returns a vector of replica states, one per replica held.
    pub fn get_replica_states(&self) -> (r: Vec<ReplicaState>)
        requires
            self.wf(),
        ensures
            r@.len() == self.replica_ids().len(),
    {
        cloned_inner_states(self.replicas.to_vec())
    }
}

} // verus!
