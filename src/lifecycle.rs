//! Facts about the lifecycle of specs under the transaction engine.

use vstd::prelude::*;
use crate::errors::{ResourceKind, SvcError};
use crate::message_bus::{CreateNexus, CreateReplica, NexusState};
use crate::nexus::{NexusOperation, NexusSpec, NexusSpecView};
use crate::replica::{ReplicaSpec, ReplicaSpecView};
use crate::spec_state::SpecState;
use crate::specs::{
    busy_refusal, completed, create_refusal, destroy_refusal, spec_wf, update_start_refusal,
    SpecOperations,
};

verus! {

/// A spec that is being updated always has a pending operation.
pub proof fn lemma_updating_has_operation<T: SpecOperations>(m: T::V)
    requires
        spec_wf::<T>(m),
    ensures
        T::updating_of(m) ==> T::pending_of(m) is Some,
{
}

/// A replica spec made from a create request satisfies the engine's invariant.
pub proof fn lemma_requested_replica_wf(r: CreateReplica)
    ensures
        spec_wf::<ReplicaSpec>(ReplicaSpec::requested(r)),
{
}

/// A nexus spec made from a create request satisfies the engine's invariant.
pub proof fn lemma_requested_nexus_wf(r: CreateNexus)
    ensures
        spec_wf::<NexusSpec>(NexusSpec::requested(r)),
{
}

/// Once an operation succeeded and its outcome was written to the store, or
/// the reconciler wrote it later, the spec has no pending operation and is
/// not being updated.
pub proof fn lemma_success_settles<T: SpecOperations>(m: T::V)
    ensures
        T::pending_of(completed::<T>(m, true, true)) is None,
        !T::updating_of(completed::<T>(m, true, true)),
        T::pending_of(T::committed(m)) is None,
        !T::updating_of(T::committed(m)),
{
    T::lemma_transitions(m);
}

/// A spec that is `Deleting` or `Deleted` never becomes `Created` again: no
/// create or update may start on it, and none of the engine's other steps
/// leads to `Created`.
pub proof fn lemma_deleting_never_created<T: SpecOperations>(
    m: T::V,
    request: T::Create,
    status: T::Status,
    op: T::UpdateOp,
    reconciling: bool,
    result: bool,
)
    requires
        spec_wf::<T>(m),
        T::state_of(m) is Deleting || T::state_of(m) is Deleted,
    ensures
        create_refusal::<T>(m, request) is Some,
        update_start_refusal::<T>(m, status, op, reconciling) is Some,
        !(T::state_of(T::destroy_started(m)) is Created),
        !(T::state_of(T::committed(m)) is Created),
        !(T::state_of(T::cleared(m)) is Created),
        !(T::state_of(T::with_result(m, result)) is Created),
        !(T::state_of(T::with_state(m, SpecState::Deleting)) is Created),
        !(T::state_of(completed::<T>(m, result, true)) is Created),
        !(T::state_of(completed::<T>(m, result, false)) is Created),
{
    T::lemma_transitions(m);
}

/// Destroying an owned spec without `del_owned` is refused with `InUse`,
/// whenever the spec is free to take an operation and not yet deleted.
pub proof fn lemma_owned_destroy_in_use<T: SpecOperations>(m: T::V)
    requires
        T::owned_of(m),
        busy_refusal::<T>(m) is None,
        !(T::state_of(m) is Deleted),
    ensures
        destroy_refusal::<T>(m, false) == Some(SvcError::InUse { kind: T::kind_of(m), id: T::id_of(m) }),
        destroy_refusal::<T>(m, true) is None,
{
}

/// Destroying a spec that is already `Deleted` succeeds with nothing to do,
/// whenever the spec is free to take an operation.
pub proof fn lemma_destroy_deleted_is_noop<T: SpecOperations>(m: T::V, del_owned: bool)
    requires
        busy_refusal::<T>(m) is None,
        T::state_of(m) is Deleted,
    ensures
        destroy_refusal::<T>(m, del_owned) is None,
{
}

/// If the store write that logs a started operation fails, clearing the
/// operation rolls the spec back: no operation is pending and it is not being
/// updated, and its lifecycle state is the one it had before.
pub proof fn lemma_start_store_failure_rolls_back<T: SpecOperations>(m: T::V)
    ensures
        T::pending_of(T::cleared(T::create_started(m))) is None,
        !T::updating_of(T::cleared(T::create_started(m))),
        T::state_of(T::cleared(T::create_started(m))) == T::state_of(m),
        T::pending_of(T::cleared(T::destroy_started(m))) is None,
        !T::updating_of(T::cleared(T::destroy_started(m))),
        T::state_of(T::cleared(T::destroy_started(m))) == T::state_of(m),
{
    T::lemma_transitions(m);
    T::lemma_transitions(T::create_started(m));
    T::lemma_transitions(T::destroy_started(m));
}

/// If the store write that completes an operation fails, the spec keeps the
/// operation with its result recorded; every new operation is then refused
/// with `StoreSave`; once the reconciler's write succeeds the recorded result
/// is applied and the spec is settled.
pub proof fn lemma_complete_store_failure_is_repaired<T: SpecOperations>(
    m: T::V,
    success: bool,
    request: T::Create,
    status: T::Status,
    op: T::UpdateOp,
    reconciling: bool,
    del_owned: bool,
)
    requires
        T::pending_of(m) is Some,
    ensures
        T::pending_of(completed::<T>(m, success, false)) == Some(Some(success)),
        busy_refusal::<T>(completed::<T>(m, success, false)) == Some(
            SvcError::StoreSave { kind: T::kind_of(m), id: T::id_of(m) },
        ),
        create_refusal::<T>(completed::<T>(m, success, false), request) == busy_refusal::<T>(
            completed::<T>(m, success, false),
        ),
        update_start_refusal::<T>(completed::<T>(m, success, false), status, op, reconciling)
            == busy_refusal::<T>(completed::<T>(m, success, false)),
        destroy_refusal::<T>(completed::<T>(m, success, false), del_owned) == busy_refusal::<T>(
            completed::<T>(m, success, false),
        ),
        T::pending_of(T::committed(completed::<T>(m, success, false))) is None,
        !T::updating_of(T::committed(completed::<T>(m, success, false))),
        T::pending_of(T::cleared(completed::<T>(m, success, false))) is None,
        !T::updating_of(T::cleared(completed::<T>(m, success, false))),
{
    T::lemma_transitions(m);
    T::lemma_transitions(completed::<T>(m, success, false));
}

/// A create whose reconciler write succeeded leaves the spec `Created`.
pub proof fn lemma_repaired_create_is_created<T: SpecOperations>(m: T::V)
    requires
        T::creating_op(m),
        T::pending_of(m) is Some,
    ensures
        T::state_of(T::committed(completed::<T>(m, true, false))) is Created,
{
    T::lemma_transitions(m);
    T::lemma_transitions(completed::<T>(m, true, false));
}

/// A replica create retried with the same parameters while the first attempt
/// is in flight does no work of its own: it is refused with `Conflict` and the
/// one pending operation stays. Once the first attempt's gRPC call failed and
/// was rolled back, the spec is still `Creating` and the retry logs the same
/// pending create again; a retry with other parameters gets `ReCreateMismatch`.
pub proof fn lemma_replica_create_retry(
    m: ReplicaSpecView,
    request: CreateReplica,
    other: CreateReplica,
)
    requires
        spec_wf::<ReplicaSpec>(m),
        create_refusal::<ReplicaSpec>(m, request) is None,
        !ReplicaSpec::matches_request(m, other),
    ensures
        create_refusal::<ReplicaSpec>(ReplicaSpec::create_started(m), request) == Some(SvcError::Conflict {  }),
        ReplicaSpec::state_of(completed::<ReplicaSpec>(ReplicaSpec::create_started(m), false, true)) is Creating,
        ReplicaSpec::pending_of(completed::<ReplicaSpec>(ReplicaSpec::create_started(m), false, true)) is None,
        create_refusal::<ReplicaSpec>(completed::<ReplicaSpec>(ReplicaSpec::create_started(m), false, true), request) is None,
        ReplicaSpec::create_started(completed::<ReplicaSpec>(ReplicaSpec::create_started(m), false, true))
            == ReplicaSpec::create_started(m),
        create_refusal::<ReplicaSpec>(completed::<ReplicaSpec>(ReplicaSpec::create_started(m), false, true), other)
            == Some(SvcError::ReCreateMismatch { id: m.uuid, kind: ResourceKind::Replica }),
{
}

/// A nexus create retried with the same parameters while the first attempt
/// is in flight is refused with `Conflict`; after the first attempt's gRPC
/// call failed and was rolled back the retry logs the same pending create.
pub proof fn lemma_nexus_create_retry(m: NexusSpecView, request: CreateNexus, other: CreateNexus)
    requires
        spec_wf::<NexusSpec>(m),
        create_refusal::<NexusSpec>(m, request) is None,
        !NexusSpec::matches_request(m, other),
    ensures
        create_refusal::<NexusSpec>(NexusSpec::create_started(m), request) == Some(SvcError::Conflict {  }),
        NexusSpec::state_of(completed::<NexusSpec>(NexusSpec::create_started(m), false, true)) is Creating,
        create_refusal::<NexusSpec>(completed::<NexusSpec>(NexusSpec::create_started(m), false, true), request) is None,
        NexusSpec::create_started(completed::<NexusSpec>(NexusSpec::create_started(m), false, true))
            == NexusSpec::create_started(m),
        create_refusal::<NexusSpec>(completed::<NexusSpec>(NexusSpec::create_started(m), false, true), other)
            == Some(SvcError::ReCreateMismatch { id: m.uuid, kind: ResourceKind::Nexus }),
{
}

/// Filtering a list without duplicates leaves a list without duplicates.
pub proof fn lemma_filter_no_duplicates<A>(s: Seq<A>, pred: spec_fn(A) -> bool)
    requires
        s.no_duplicates(),
    ensures
        s.filter(pred).no_duplicates(),
    decreases s.len(),
{
    reveal_with_fuel(Seq::filter, 1);
    if s.len() > 0 {
        let d = s.drop_last();
        assert(d.no_duplicates()) by {
            assert forall|i: int, j: int| 0 <= i < d.len() && 0 <= j < d.len() && i != j implies d[i] != d[j] by {
                assert(d[i] == s[i] && d[j] == s[j]);
            }
        }
        lemma_filter_no_duplicates(d, pred);
        if pred(s.last()) {
            let f = d.filter(pred);
            if f.contains(s.last()) {
                d.lemma_filter_contains_rev(pred, s.last());
                let k = choose|k: int| 0 <= k < d.len() && d[k] == s.last();
                assert(s[k] == s[s.len() - 1]);
            }
            assert(f.push(s.last()).no_duplicates()) by {
                assert forall|i: int, j: int| 0 <= i < f.push(s.last()).len() && 0 <= j < f.push(s.last()).len() && i != j
                    implies f.push(s.last())[i] != f.push(s.last())[j] by {
                    if i < f.len() && j < f.len() {
                    } else if i < f.len() {
                        assert(f.contains(f[i]));
                    } else {
                        assert(f.contains(f[j]));
                    }
                }
            }
        }
    }
}

/// Children of a nexus hold no duplicate URIs after any step of the engine,
/// provided they held none before: a child is only added when it is absent.
pub proof fn lemma_nexus_children_unique(
    m: NexusSpecView,
    op: NexusOperation,
    result: bool,
    state: SpecState<NexusState>,
)
    requires
        NexusSpec::kind_wf(m),
        m.children.no_duplicates(),
    ensures
        NexusSpec::committed(m).children.no_duplicates(),
        NexusSpec::cleared(m).children.no_duplicates(),
        NexusSpec::create_started(m).children.no_duplicates(),
        NexusSpec::destroy_started(m).children.no_duplicates(),
        NexusSpec::update_started(m, op).children.no_duplicates(),
        NexusSpec::with_result(m, result).children.no_duplicates(),
        NexusSpec::with_state(m, state).children.no_duplicates(),
{
    match m.operation {
        Some(o) => match o.operation {
            NexusOperation::AddChild(uri) => {
                let s = m.children.push(uri@);
                assert forall|i: int, j: int| 0 <= i < s.len() && 0 <= j < s.len() && i != j implies s[i] != s[j] by {
                    if i < m.children.len() && j < m.children.len() {
                    } else if i < m.children.len() {
                        assert(m.children.contains(m.children[i]));
                    } else {
                        assert(m.children.contains(m.children[j]));
                    }
                }
            },
            NexusOperation::RemoveChild(uri) => {
                lemma_filter_no_duplicates(m.children, |c: Seq<char>| c != uri@);
            },
            _ => {},
        },
        None => {},
    }
}

} // verus!
