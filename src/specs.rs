//! The spec transaction engine: the state machine that moves a resource spec
//! through create, update and destroy while keeping the store consistent.
//!
//! Each step that waits on the outside world (the store, a gRPC call, the
//! resource-specific destroy validation) is performed by the caller, which
//! hands its outcome to the next step here.

use vstd::prelude::*;
use crate::errors::{ResourceKind, SvcError};
use crate::spec_state::SpecState;
use crate::nexus::NexusSpec;
use crate::replica::ReplicaSpec;
use crate::resource_map::ResourceMap;
use crate::store::StoreError;
use std::time::Duration;

verus! {

/// The outcome of a refusal check: `Ok` when the step may go ahead.
pub open spec fn outcome(refusal: Option<SvcError>) -> Result<(), SvcError> {
    match refusal {
        Some(e) => Err(e),
        None => Ok(()),
    }
}

/// Encapsulates common behaviour for all different types of resource specs,
/// including validation rules and error handling.
///
/// A spec is modelled by its view; the spec functions below describe the
/// fields that the engine reads and the transitions that it applies.
pub trait SpecOperations: Sized + View {
    /// Request that creates the resource.
    type Create;
    /// Runtime status carried by the `Created` state.
    type State: Copy;
    /// Observed status that an update is checked against.
    type Status;
    /// Update operation.
    type UpdateOp;

    /// Lifecycle state of the spec.
    spec fn state_of(m: Self::V) -> SpecState<Self::State>;

    /// Whether a mutating operation is in flight.
    spec fn updating_of(m: Self::V) -> bool;

    /// The pending operation's result: `None` without a pending operation,
    /// `Some(None)` while it runs, `Some(Some(ok))` once it concluded.
    spec fn pending_of(m: Self::V) -> Option<Option<bool>>;

    /// Whether the pending operation is a create.
    spec fn creating_op(m: Self::V) -> bool;

    /// Whether the resource is owned by another one.
    spec fn owned_of(m: Self::V) -> bool;

    /// Kind of the resource.
    spec fn kind_of(m: Self::V) -> ResourceKind;

    /// Identifier of the resource.
    spec fn id_of(m: Self::V) -> String;

    /// Whether a create request asks for exactly this spec.
    spec fn matches_request(m: Self::V, request: Self::Create) -> bool;

    /// Whether the observed status agrees with the spec.
    spec fn synced_with(m: Self::V, status: Self::Status) -> bool;

    /// Why an update operation may not start on a created spec, if it may not.
    spec fn update_refusal(m: Self::V, status: Self::Status, op: Self::UpdateOp) -> Option<SvcError>;

    /// Well-formedness of the kind, on top of the engine's own invariant.
    spec fn kind_wf(m: Self::V) -> bool;

    /// The spec with a create operation logged.
    spec fn create_started(m: Self::V) -> Self::V;

    /// The spec with a destroy operation logged.
    spec fn destroy_started(m: Self::V) -> Self::V;

    /// The spec with an update operation logged.
    spec fn update_started(m: Self::V, op: Self::UpdateOp) -> Self::V;

    /// The spec with its pending operation applied and cleared.
    spec fn committed(m: Self::V) -> Self::V;

    /// The spec with its pending operation dropped.
    spec fn cleared(m: Self::V) -> Self::V;

    /// The spec with the result of its pending operation recorded.
    spec fn with_result(m: Self::V, result: bool) -> Self::V;

    /// The spec in another lifecycle state.
    spec fn with_state(m: Self::V, state: SpecState<Self::State>) -> Self::V;

    /// The transitions act on the engine's fields as their names say.
    proof fn lemma_transitions(m: Self::V)
        ensures
            Self::kind_of(Self::create_started(m)) == Self::kind_of(m),
            Self::id_of(Self::create_started(m)) == Self::id_of(m),
            Self::state_of(Self::create_started(m)) == Self::state_of(m),
            Self::updating_of(Self::create_started(m)),
            Self::pending_of(Self::create_started(m)) == Some(None::<bool>),
            Self::creating_op(Self::create_started(m)),
            Self::state_of(Self::destroy_started(m)) == Self::state_of(m),
            Self::updating_of(Self::destroy_started(m)),
            Self::pending_of(Self::destroy_started(m)) == Some(None::<bool>),
            !Self::creating_op(Self::destroy_started(m)),
            Self::state_of(Self::cleared(m)) == Self::state_of(m),
            !Self::updating_of(Self::cleared(m)),
            Self::pending_of(Self::cleared(m)) is None,
            Self::kind_of(Self::cleared(m)) == Self::kind_of(m),
            Self::id_of(Self::cleared(m)) == Self::id_of(m),
            !Self::updating_of(Self::committed(m)),
            Self::pending_of(Self::committed(m)) is None,
            Self::creating_op(m) ==> Self::pending_of(m) is Some,
            Self::creating_op(m) ==> Self::state_of(Self::committed(m)) is Created,
            !Self::creating_op(m) && !(Self::state_of(m) is Creating)
                ==> !(Self::state_of(Self::committed(m)) is Creating),
            !Self::creating_op(m) && (Self::state_of(m) is Deleting || Self::state_of(m) is Deleted)
                ==> Self::state_of(Self::committed(m)) is Deleting || Self::state_of(
                Self::committed(m),
            ) is Deleted,
            forall|b: bool|
                {
                    &&& !Self::updating_of(#[trigger] Self::with_result(m, b))
                    &&& Self::state_of(Self::with_result(m, b)) == Self::state_of(m)
                    &&& Self::kind_of(Self::with_result(m, b)) == Self::kind_of(m)
                    &&& Self::id_of(Self::with_result(m, b)) == Self::id_of(m)
                    &&& Self::creating_op(Self::with_result(m, b)) == Self::creating_op(m)
                    &&& Self::pending_of(m) is Some ==> Self::pending_of(Self::with_result(m, b))
                        == Some(Some(b))
                    &&& Self::pending_of(m) is None ==> Self::pending_of(Self::with_result(m, b))
                        is None
                },
            forall|st: SpecState<Self::State>|
                {
                    &&& Self::state_of(#[trigger] Self::with_state(m, st)) == st
                    &&& Self::updating_of(Self::with_state(m, st)) == Self::updating_of(m)
                    &&& Self::pending_of(Self::with_state(m, st)) == Self::pending_of(m)
                    &&& Self::creating_op(Self::with_state(m, st)) == Self::creating_op(m)
                },
    ;

    /// The kind's well-formedness survives every step that the engine takes
    /// on a spec that admits it.
    proof fn lemma_kind_wf(m: Self::V)
        requires
            Self::kind_wf(m),
        ensures
            Self::kind_wf(Self::create_started(m)),
            Self::kind_wf(Self::destroy_started(m)),
            Self::kind_wf(Self::committed(m)),
            Self::kind_wf(Self::cleared(m)),
            forall|b: bool| Self::kind_wf(#[trigger] Self::with_result(m, b)),
            forall|st: SpecState<Self::State>| Self::kind_wf(#[trigger] Self::with_state(m, st)),
            forall|status: Self::Status, op: Self::UpdateOp|
                #[trigger] Self::update_refusal(m, status, op) is None ==> {
                    &&& Self::kind_wf(Self::update_started(m, op))
                    &&& Self::updating_of(Self::update_started(m, op))
                    &&& Self::pending_of(Self::update_started(m, op)) == Some(None::<bool>)
                    &&& !Self::creating_op(Self::update_started(m, op))
                    &&& Self::state_of(Self::update_started(m, op)) == Self::state_of(m)
                },
    ;

    /// Check if the object is currently being updated
    fn updating(&self) -> (r: bool)
        ensures
            r == Self::updating_of(self@),
    ;

    /// Check if the object is dirty: its last operation concluded but was not
    /// written to the persistent store
    fn dirty(&self) -> (r: bool)
        ensures
            r == (Self::pending_of(self@) matches Some(Some(_))),
    ;

    /// Whether an operation is pending.
    fn has_pending_op(&self) -> (r: bool)
        ensures
            r == Self::pending_of(self@) is Some,
    ;

    /// Result recorded on the pending operation, if any.
    fn pending_result(&self) -> (r: Option<bool>)
        ensures
            r == (match Self::pending_of(self@) {
                Some(x) => x,
                None => None,
            }),
    ;

    /// Get the kind (for log messages)
    fn kind(&self) -> (r: ResourceKind)
        ensures
            r == Self::kind_of(self@),
    ;

    /// Get the UUID as a string (for log messages)
    fn uuid(&self) -> (r: String)
        ensures
            r == Self::id_of(self@),
    ;

    /// Get the state of the object
    fn state(&self) -> (r: SpecState<Self::State>)
        ensures
            r == Self::state_of(self@),
    ;

    /// Set the state of the object
    fn set_state(&mut self, state: SpecState<Self::State>)
        ensures
            final(self)@ == Self::with_state(old(self)@, state),
    ;

    /// Check if the object is owned by another
    fn owned(&self) -> (r: bool)
        ensures
            r == Self::owned_of(self@),
    ;

    /// Whether a create request asks for exactly this spec.
    fn matches(&self, request: &Self::Create) -> (r: bool)
        ensures
            r == Self::matches_request(self@, *request),
    ;

    /// Check if the status is in sync with the spec
    fn status_synced(&self, status: &Self::Status) -> (r: bool)
        ensures
            r == Self::synced_with(self@, *status),
    ;

    /// A copy of the spec.
    fn duplicate(&self) -> (r: Self)
        ensures
            r@ == self@,
    ;

    /// Start a create transaction
    fn start_create_op(&mut self)
        ensures
            final(self)@ == Self::create_started(old(self)@),
    ;

    /// Start a destroy transaction
    fn start_destroy_op(&mut self)
        ensures
            final(self)@ == Self::destroy_started(old(self)@),
    ;

    /// Start an update operation, which also checks that it is a valid transition
    fn start_update_op(&mut self, status: &Self::Status, op: Self::UpdateOp) -> (r: Result<
        (),
        SvcError,
    >)
        ensures
            r == outcome(Self::update_refusal(old(self)@, *status, op)),
            r is Ok ==> final(self)@ == Self::update_started(old(self)@, op),
            r is Err ==> final(self)@ == old(self)@,
    ;

    /// Apply the pending operation and clear it
    fn commit_op(&mut self)
        ensures
            final(self)@ == Self::committed(old(self)@),
    ;

    /// Drop the pending operation
    fn clear_op(&mut self)
        ensures
            final(self)@ == Self::cleared(old(self)@),
    ;

    /// Record the result of the pending operation
    fn set_op_result(&mut self, result: bool)
        ensures
            final(self)@ == Self::with_result(old(self)@, result),
    ;
}

/// The engine's invariant over every spec: a spec that is being updated has a
/// pending operation, a pending create only exists while the spec is
/// `Creating`, and the kind's own well-formedness holds.
pub open spec fn spec_wf<T: SpecOperations>(m: T::V) -> bool {
    &&& T::updating_of(m) ==> T::pending_of(m) is Some
    &&& T::creating_op(m) && T::pending_of(m) is Some ==> T::state_of(m) is Creating
    &&& T::kind_wf(m)
}

/// Why a spec cannot take a new operation now, if it cannot.
pub open spec fn busy_refusal<T: SpecOperations>(m: T::V) -> Option<SvcError> {
    if T::updating_of(m) {
        Some(SvcError::Conflict {})
    } else if T::pending_of(m) matches Some(Some(_)) {
        Some(SvcError::StoreSave { kind: T::kind_of(m), id: T::id_of(m) })
    } else {
        None
    }
}

/// Why a create request cannot start on a spec, if it cannot.
pub open spec fn create_refusal<T: SpecOperations>(m: T::V, request: T::Create) -> Option<SvcError> {
    if busy_refusal::<T>(m) is Some {
        busy_refusal::<T>(m)
    } else {
        match T::state_of(m) {
            SpecState::Creating => if T::matches_request(m, request) {
                None
            } else {
                Some(SvcError::ReCreateMismatch { id: T::id_of(m), kind: T::kind_of(m) })
            },
            SpecState::Created(_) => Some(SvcError::AlreadyExists { kind: T::kind_of(m), id: T::id_of(m) }),
            _ => Some(SvcError::Deleting {}),
        }
    }
}

/// Why an update cannot start on a spec, if it cannot.
pub open spec fn update_start_refusal<T: SpecOperations>(
    m: T::V,
    status: T::Status,
    op: T::UpdateOp,
    reconciling: bool,
) -> Option<SvcError> {
    if busy_refusal::<T>(m) is Some {
        busy_refusal::<T>(m)
    } else {
        match T::state_of(m) {
            SpecState::Creating => Some(SvcError::PendingCreation { id: T::id_of(m), kind: T::kind_of(m) }),
            SpecState::Created(_) => if !reconciling && !T::synced_with(m, status) {
                Some(SvcError::NotReady { id: T::id_of(m), kind: T::kind_of(m) })
            } else {
                T::update_refusal(m, status, op)
            },
            _ => Some(SvcError::PendingDeletion { id: T::id_of(m), kind: T::kind_of(m) }),
        }
    }
}

/// Why a destroy cannot start on a spec, if it cannot.
pub open spec fn destroy_refusal<T: SpecOperations>(m: T::V, del_owned: bool) -> Option<SvcError> {
    if busy_refusal::<T>(m) is Some {
        busy_refusal::<T>(m)
    } else if T::state_of(m) is Deleted {
        None
    } else if !del_owned && T::owned_of(m) {
        Some(SvcError::InUse { kind: T::kind_of(m), id: T::id_of(m) })
    } else {
        None
    }
}

/// The spec after an operation's outcome and the store write that followed it:
/// committed when both succeeded, cleared when the operation failed and the
/// store took the rollback, otherwise marked with the result for the reconciler.
pub open spec fn completed<T: SpecOperations>(m: T::V, success: bool, stored: bool) -> T::V {
    if stored {
        if success {
            T::committed(m)
        } else {
            T::cleared(m)
        }
    } else {
        T::with_result(m, success)
    }
}

/// What a completion step returns: the store error when the store write failed,
/// else the operation's own result.
pub open spec fn completion_result<R>(
    result: Result<R, SvcError>,
    stored: Result<(), StoreError>,
) -> Result<R, SvcError> {
    match stored {
        Err(e) => Err(SvcError::Store { source: e }),
        Ok(_) => result,
    }
}

/// The lifecycle state never goes back to `Created` once deletion began.
pub open spec fn not_resurrected<T: SpecOperations>(before: T::V, after: T::V) -> bool {
    (T::state_of(before) is Deleting || T::state_of(before) is Deleted) ==> !(T::state_of(
        after,
    ) is Created)
}

/// Check if the object is free to be modified or if it's still busy
pub fn busy<T: SpecOperations>(spec: &T) -> (r: Result<(), SvcError>)
    ensures
        r == outcome(busy_refusal::<T>(spec@)),
{
    if spec.updating() {
        return Err(SvcError::Conflict {});
    } else if spec.dirty() {
        return Err(SvcError::StoreSave { kind: spec.kind(), id: spec.uuid() });
    }
    Ok(())
}

/// When a create request is issued we need to validate by verifying that:
/// 1. a previous create operation is no longer in progress
/// 2. if it's a retry then it must have the same parameters as the first request
/// On success the create operation is logged on the spec, which must then be
/// persisted and handed to `store_operation_log`.
pub fn start_create_inner<T: SpecOperations>(spec: &mut T, request: &T::Create) -> (r: Result<
    (),
    SvcError,
>)
    requires
        spec_wf::<T>(old(spec)@),
    ensures
        r == outcome(create_refusal::<T>(old(spec)@, *request)),
        r is Ok ==> final(spec)@ == T::create_started(old(spec)@),
        r is Err ==> final(spec)@ == old(spec)@,
        spec_wf::<T>(final(spec)@),
        not_resurrected::<T>(old(spec)@, final(spec)@),
{
    proof {
        T::lemma_transitions(spec@);
        T::lemma_kind_wf(spec@);
    }
    busy(&*spec)?;
    let state = spec.state();
    if state.creating() {
        if !spec.matches(request) {
            Err(SvcError::ReCreateMismatch { id: spec.uuid(), kind: spec.kind() })
        } else {
            spec.start_create_op();
            Ok(())
        }
    } else if state.created() {
        Err(SvcError::AlreadyExists { kind: spec.kind(), id: spec.uuid() })
    } else {
        Err(SvcError::Deleting {})
    }
}

/// Takes the outcome of persisting a spec with a logged operation.
/// In case of failure the operation cannot proceed so clear it and return an error
pub fn store_operation_log<T: SpecOperations>(
    spec: &mut T,
    stored: Result<(), StoreError>,
) -> (r: Result<(), SvcError>)
    requires
        spec_wf::<T>(old(spec)@),
    ensures
        stored is Ok ==> r == Ok::<(), SvcError>(()) && final(spec)@ == old(spec)@,
        stored matches Err(e) ==> r == Err::<(), SvcError>(SvcError::Store { source: e })
            && final(spec)@ == T::cleared(old(spec)@),
        spec_wf::<T>(final(spec)@),
        not_resurrected::<T>(old(spec)@, final(spec)@),
{
    proof {
        T::lemma_transitions(spec@);
        T::lemma_kind_wf(spec@);
    }
    match stored {
        Err(error) => {
            spec.clear_op();
            Err(SvcError::Store { source: error })
        },
        Ok(()) => Ok(()),
    }
}

/// Checks that the object ready to accept a new update operation and, if so,
/// logs the operation. Returns a copy of the spec with the operation logged,
/// which must then be persisted and handed to `store_operation_log`.
pub fn start_update_inner<T: SpecOperations>(
    spec: &mut T,
    status: &T::Status,
    op: T::UpdateOp,
    reconciling: bool,
) -> (r: Result<T, SvcError>)
    requires
        spec_wf::<T>(old(spec)@),
    ensures
        r is Ok <==> update_start_refusal::<T>(old(spec)@, *status, op, reconciling) is None,
        r matches Err(e) ==> update_start_refusal::<T>(old(spec)@, *status, op, reconciling)
            == Some(e) && final(spec)@ == old(spec)@,
        r matches Ok(c) ==> final(spec)@ == T::update_started(old(spec)@, op) && c@ == final(spec)@,
        spec_wf::<T>(final(spec)@),
        not_resurrected::<T>(old(spec)@, final(spec)@),
{
    proof {
        T::lemma_transitions(spec@);
        T::lemma_kind_wf(spec@);
    }
    busy(&*spec)?;
    let state = spec.state();
    if state.creating() {
        Err(SvcError::PendingCreation { id: spec.uuid(), kind: spec.kind() })
    } else if state.created() {
        // if it's not part of a reconcile effort then the status should match up with
        // what the spec defines, otherwise it's probably not a good idea to allow this
        // "frontend" operation to go through
        if !reconciling && !spec.status_synced(status) {
            Err(SvcError::NotReady { id: spec.uuid(), kind: spec.kind() })
        } else {
            spec.start_update_op(status, op)?;
            Ok(spec.duplicate())
        }
    } else {
        Err(SvcError::PendingDeletion { id: spec.uuid(), kind: spec.kind() })
    }
}

/// Checks that a destroy may start. Returns `Ok(false)` when the spec is
/// already deleted, which leaves nothing to do; `Ok(true)` when a destroy
/// operation was logged, after which the resource-specific validation runs
/// and its outcome goes to `finish_destroy_start`.
pub fn start_destroy_inner<T: SpecOperations>(spec: &mut T, del_owned: bool) -> (r: Result<
    bool,
    SvcError,
>)
    requires
        spec_wf::<T>(old(spec)@),
    ensures
        r is Err <==> destroy_refusal::<T>(old(spec)@, del_owned) is Some,
        r matches Err(e) ==> destroy_refusal::<T>(old(spec)@, del_owned) == Some(e)
            && final(spec)@ == old(spec)@,
        r == Ok::<bool, SvcError>(false) <==> destroy_refusal::<T>(old(spec)@, del_owned) is None
            && T::state_of(old(spec)@) is Deleted,
        r == Ok::<bool, SvcError>(false) ==> final(spec)@ == old(spec)@,
        r == Ok::<bool, SvcError>(true) ==> final(spec)@ == T::destroy_started(old(spec)@),
        spec_wf::<T>(final(spec)@),
        not_resurrected::<T>(old(spec)@, final(spec)@),
{
    proof {
        T::lemma_transitions(spec@);
        T::lemma_kind_wf(spec@);
    }
    busy(&*spec)?;
    if spec.state().deleted() {
        return Ok(false);
    } else if !del_owned && spec.owned() {
        return Err(SvcError::InUse { kind: spec.kind(), id: spec.uuid() });
    }
    spec.start_destroy_op();
    Ok(true)
}

/// Takes the outcome of the resource-specific destroy validation. On success
/// the spec moves to `Deleting` (once we've started, there's no going back)
/// and a copy is returned, which must be persisted and handed to
/// `store_operation_log`. On failure the logged operation is dropped.
pub fn finish_destroy_start<T: SpecOperations>(
    spec: &mut T,
    validation: Result<(), SvcError>,
) -> (r: Result<T, SvcError>)
    requires
        spec_wf::<T>(old(spec)@),
        !T::creating_op(old(spec)@),
    ensures
        validation matches Err(e) ==> r == Err::<T, SvcError>(e) && final(spec)@ == T::cleared(
            old(spec)@,
        ),
        validation is Ok ==> (r matches Ok(c) && final(spec)@ == T::with_state(
            old(spec)@,
            SpecState::Deleting,
        ) && c@ == final(spec)@),
        spec_wf::<T>(final(spec)@),
        not_resurrected::<T>(old(spec)@, final(spec)@),
{
    proof {
        T::lemma_transitions(spec@);
        T::lemma_kind_wf(spec@);
    }
    match validation {
        Err(error) => {
            spec.clear_op();
            Err(error)
        },
        Ok(()) => {
            spec.set_state(SpecState::Deleting);
            Ok(spec.duplicate())
        },
    }
}

/// The copy of a spec that a completion step writes to the store: with its
/// pending operation applied when the operation succeeded, dropped otherwise.
pub fn completion_value<T: SpecOperations>(spec: &T, success: bool) -> (r: T)
    ensures
        success ==> r@ == T::committed(spec@),
        !success ==> r@ == T::cleared(spec@),
{
    let mut c = spec.duplicate();
    if success {
        c.commit_op();
    } else {
        c.clear_op();
    }
    c
}

/// Completes an operation, given the operation's own result and the outcome of
/// writing `completion_value` to the store. If the store write failed, the
/// spec is marked with the result and the dirty spec reconciler will write it
/// when the store is back online.
pub fn complete_op<T: SpecOperations, R>(
    spec: &mut T,
    result: Result<R, SvcError>,
    stored: Result<(), StoreError>,
) -> (r: Result<R, SvcError>)
    requires
        spec_wf::<T>(old(spec)@),
    ensures
        r == completion_result(result, stored),
        final(spec)@ == completed::<T>(old(spec)@, result is Ok, stored is Ok),
        spec_wf::<T>(final(spec)@),
        not_resurrected::<T>(old(spec)@, final(spec)@),
{
    proof {
        T::lemma_transitions(spec@);
        T::lemma_kind_wf(spec@);
    }
    match result {
        Ok(val) => match stored {
            Ok(()) => {
                spec.commit_op();
                Ok(val)
            },
            Err(error) => {
                spec.set_op_result(true);
                Err(SvcError::Store { source: error })
            },
        },
        Err(error) => match stored {
            Ok(()) => {
                spec.clear_op();
                Err(error)
            },
            Err(store_error) => {
                spec.set_op_result(false);
                Err(SvcError::Store { source: store_error })
            },
        },
    }
}

/// Completes a create operation; see `complete_op`.
pub fn complete_create<T: SpecOperations, R>(
    spec: &mut T,
    result: Result<R, SvcError>,
    stored: Result<(), StoreError>,
) -> (r: Result<R, SvcError>)
    requires
        spec_wf::<T>(old(spec)@),
    ensures
        r == completion_result(result, stored),
        final(spec)@ == completed::<T>(old(spec)@, result is Ok, stored is Ok),
        spec_wf::<T>(final(spec)@),
        not_resurrected::<T>(old(spec)@, final(spec)@),
{
    complete_op(spec, result, stored)
}

/// Completes an update operation; see `complete_op`.
pub fn complete_update<T: SpecOperations, R>(
    spec: &mut T,
    result: Result<R, SvcError>,
    stored: Result<(), StoreError>,
) -> (r: Result<R, SvcError>)
    requires
        spec_wf::<T>(old(spec)@),
    ensures
        r == completion_result(result, stored),
        final(spec)@ == completed::<T>(old(spec)@, result is Ok, stored is Ok),
        spec_wf::<T>(final(spec)@),
        not_resurrected::<T>(old(spec)@, final(spec)@),
{
    complete_op(spec, result, stored)
}

/// Completes a destroy operation; `stored` is the outcome of deleting the key
/// when the destroy succeeded, of writing `completion_value` otherwise. On
/// success the caller also removes the spec from its resource map.
pub fn complete_destroy<T: SpecOperations, R>(
    spec: &mut T,
    result: Result<R, SvcError>,
    stored: Result<(), StoreError>,
) -> (r: Result<R, SvcError>)
    requires
        spec_wf::<T>(old(spec)@),
    ensures
        r == completion_result(result, stored),
        final(spec)@ == completed::<T>(old(spec)@, result is Ok, stored is Ok),
        spec_wf::<T>(final(spec)@),
        not_resurrected::<T>(old(spec)@, final(spec)@),
{
    complete_op(spec, result, stored)
}

/// Validates the outcome of an intermediate step, part of a transaction operation.
/// A success leaves the spec alone and `stored` is not consulted. In case of an
/// error, the operation is undone as in `complete_op`, with `stored` the
/// outcome of writing `completion_value(spec, false)`.
pub fn validate_update_step<T: SpecOperations, R>(
    spec: &mut T,
    result: Result<R, SvcError>,
    stored: Result<(), StoreError>,
) -> (r: Result<R, SvcError>)
    requires
        spec_wf::<T>(old(spec)@),
    ensures
        result is Ok ==> r == result && final(spec)@ == old(spec)@,
        result is Err ==> r == completion_result(result, stored) && final(spec)@ == completed::<T>(
            old(spec)@,
            false,
            stored is Ok,
        ),
        spec_wf::<T>(final(spec)@),
        not_resurrected::<T>(old(spec)@, final(spec)@),
{
    proof {
        T::lemma_transitions(spec@);
        T::lemma_kind_wf(spec@);
    }
    match result {
        Ok(val) => Ok(val),
        Err(error) => complete_op(spec, Err(error), stored),
    }
}

/// The copy of a dirty spec that the reconciler writes to the store: its
/// pending operation applied if it had succeeded, dropped otherwise.
pub fn reconcile_value<T: SpecOperations>(spec: &T) -> (r: T)
    ensures
        T::pending_of(spec@) == Some(Some(true)) ==> r@ == T::committed(spec@),
        T::pending_of(spec@) != Some(Some(true)) ==> r@ == T::cleared(spec@),
{
    let success = match spec.pending_result() {
        Some(true) => true,
        _ => false,
    };
    completion_value(spec, success)
}

/// Takes the outcome of writing `reconcile_value` of a dirty spec to the
/// store: on success the same change is applied to the spec. Returns whether
/// the spec was dirty, that is whether there was work to do.
pub fn reconcile_dirty<T: SpecOperations>(spec: &mut T, stored: Result<(), StoreError>) -> (r:
    bool)
    requires
        spec_wf::<T>(old(spec)@),
    ensures
        r == (T::pending_of(old(spec)@) matches Some(Some(_))),
        !r || stored is Err ==> final(spec)@ == old(spec)@,
        r && stored is Ok && T::pending_of(old(spec)@) == Some(Some(true)) ==> final(spec)@
            == T::committed(old(spec)@),
        r && stored is Ok && T::pending_of(old(spec)@) == Some(Some(false)) ==> final(spec)@
            == T::cleared(old(spec)@),
        spec_wf::<T>(final(spec)@),
        not_resurrected::<T>(old(spec)@, final(spec)@),
{
    proof {
        T::lemma_transitions(spec@);
        T::lemma_kind_wf(spec@);
    }
    match spec.pending_result() {
        Some(success) => {
            if stored.is_ok() {
                if success {
                    spec.commit_op();
                } else {
                    spec.clear_op();
                }
            }
            true
        },
        None => false,
    }
}

/// Replays the operation logged on a spec loaded from the store: one that
/// succeeded is applied, one that failed or whose outcome is unknown is
/// dropped (a best-effort rollback). A spec without one is left alone.
pub fn replay_operation<T: SpecOperations>(spec: &mut T)
    requires
        spec_wf::<T>(old(spec)@),
    ensures
        T::pending_of(old(spec)@) == Some(Some(true)) ==> final(spec)@ == T::committed(old(spec)@),
        T::pending_of(old(spec)@) is Some && T::pending_of(old(spec)@) != Some(Some(true))
            ==> final(spec)@ == T::cleared(old(spec)@),
        T::pending_of(old(spec)@) is None ==> final(spec)@ == old(spec)@,
        spec_wf::<T>(final(spec)@),
        not_resurrected::<T>(old(spec)@, final(spec)@),
{
    proof {
        T::lemma_transitions(spec@);
        T::lemma_kind_wf(spec@);
    }
    if spec.has_pending_op() {
        match spec.pending_result() {
            Some(true) => spec.commit_op(),
            _ => spec.clear_op(),
        }
    }
}

/// How long the dirty spec reconciler sleeps after a pass: the short period
/// when the pass found dirty specs, the longer idle period otherwise.
pub fn reconcile_pause(
    dirty_replicas: bool,
    dirty_nexuses: bool,
    period: Duration,
    idle_period: Duration,
) -> (r: Duration)
    ensures
        r == (if dirty_replicas || dirty_nexuses {
            period
        } else {
            idle_period
        }),
{
    if dirty_nexuses || dirty_replicas {
        period
    } else {
        idle_period
    }
}

/// Resource Specs of the kinds that go through the transaction engine.
pub struct ResourceSpecs {
    pub nexuses: ResourceMap<NexusSpec>,
    pub replicas: ResourceMap<ReplicaSpec>,
}

impl ResourceSpecs {
    /// No specs yet.
    pub fn new() -> (r: Self)
        ensures
            r.nexuses.wf(),
            r.replicas.wf(),
            r.nexuses@.is_empty(),
            r.replicas@.is_empty(),
    {
        ResourceSpecs { nexuses: ResourceMap::new(), replicas: ResourceMap::new() }
    }
}

} // verus!
