//! The reconciliation controller's decision rules.
//!
//! Given one observed assignment resource, the controller classifies it
//! into an action, decides which lifecycle steps to run in which order,
//! and fixes the delay before the next reconciliation. The surrounding
//! program performs the store patches and repository work the plan calls
//! for, in the plan's order: the finalizer is set before anything is
//! materialized, and artifacts are removed before the finalizer is
//! cleared, so a crash never leaves artifacts without their cleanup
//! marker.

use vstd::prelude::*;

use crate::assignment::AssignmentResource;
use crate::errors::Error;

verus! {

/// The steady-state delay, in seconds, before a successfully reconciled
/// resource is looked at again.
pub const STEADY_STATE_REQUEUE_SECONDS: u64 = 60;

/// The short backoff, in seconds, after a failed reconciliation.
pub const ERROR_REQUEUE_SECONDS: u64 = 5;

/// The action a resource's observed state calls for.
#[derive(PartialEq, Eq, Structural, Clone, Copy, Debug)]
pub enum Action {
    /// Materialize the assignment's artifacts.
    Create,
    /// Remove the assignment's artifacts, then release the resource.
    Delete,
    /// The resource carries neither marker yet; it is transient, and is
    /// handled as needing the finalizer and then `Create`.
    NoOp,
}

/// The classification rule, evaluated in order: a deletion-marked
/// resource is deleted; else a finalized resource is (re)created; else
/// the resource has not been processed yet.
pub open spec fn spec_determine_action(a: AssignmentResource) -> Action {
    if a.deletion_requested {
        Action::Delete
    } else if a.finalizer_present {
        Action::Create
    } else {
        Action::NoOp
    }
}

/// Classifies an observed resource into the action to perform.
pub fn determine_action(assignment: &AssignmentResource) -> (r: Action)
    ensures
        r == spec_determine_action(*assignment),
{
    if assignment.deletion_requested {
        Action::Delete
    } else if assignment.finalizer_present {
        Action::Create
    } else {
        Action::NoOp
    }
}

/// The lifecycle steps one reconciliation runs, in order.
#[derive(PartialEq, Eq, Structural, Clone, Copy, Debug)]
pub enum ReconcilePlan {
    /// Set the finalizer marker first, then materialize the artifacts.
    /// Setting the marker is idempotent, so a resource that already
    /// carries it is simply re-affirmed; a fresh resource gets the marker
    /// on its first reconciliation, before anything is materialized.
    Create,
    /// Remove the materialized artifacts first; only on success clear the
    /// finalizer marker, after which the store may erase the resource.
    Delete,
}

/// Decides what one reconciliation of the resource must do. A resource
/// without a namespace/scope cannot be reconciled at all: that is a
/// user-input error, fatal to the cycle — no finalizer is added and no
/// repository is touched. Otherwise a deletion-marked resource is torn
/// down, and every other resource — finalized or seen for the first
/// time — is (re)materialized, finalizer first.
pub fn plan_reconcile(assignment: &AssignmentResource) -> (r: Result<ReconcilePlan, Error>)
    ensures
        match r {
            Ok(plan) => {
                &&& assignment.namespace is Some
                &&& (plan == ReconcilePlan::Delete <==> assignment.deletion_requested)
                &&& (plan == ReconcilePlan::Create <==> !assignment.deletion_requested)
            },
            Err(e) => assignment.namespace is None && e is UserInputError,
        },
{
    if assignment.namespace.is_none() {
        return Err(
            Error::UserInputError(
                String::from_str(
                    "Expected assignment resource to be namespaced. Can't deploy to an unknown namespace.",
                ),
            ),
        );
    }
    if assignment.deletion_requested {
        Ok(ReconcilePlan::Delete)
    } else {
        Ok(ReconcilePlan::Create)
    }
}

/// The delay before the next reconciliation after a successful one: a
/// created assignment is re-affirmed after the steady-state interval; a
/// deleted one is never requeued, as the resource is about to disappear.
pub fn requeue_after_success(plan: &ReconcilePlan) -> (r: Option<u64>)
    ensures
        match plan {
            ReconcilePlan::Create => r == Some(STEADY_STATE_REQUEUE_SECONDS),
            ReconcilePlan::Delete => r is None,
        },
{
    match plan {
        ReconcilePlan::Create => Some(STEADY_STATE_REQUEUE_SECONDS),
        ReconcilePlan::Delete => None,
    }
}

/// The delay before retrying after any failed reconciliation: a short
/// fixed backoff, distinct from the steady-state interval, whatever the
/// error.
pub fn error_requeue(error: &Error) -> (r: u64)
    ensures
        r == ERROR_REQUEUE_SECONDS,
{
    let _ = error;
    ERROR_REQUEUE_SECONDS
}

/// The lifecycle of one assignment, reduced to what the central
/// invariant speaks of: whether the cleanup marker is present and
/// whether materialized artifacts exist.
pub struct LifecycleState {
    /// Whether the resource carries the finalizer marker.
    pub finalizer_present: bool,
    /// Whether the assignment's artifacts exist downstream.
    pub artifacts_present: bool,
}

/// The central lifecycle invariant: the finalizer is never absent while
/// materialized artifacts exist, because its presence is the only record
/// that cleanup is required.
pub open spec fn lifecycle_safe(s: LifecycleState) -> bool {
    s.artifacts_present ==> s.finalizer_present
}

/// The create order — marker set first, artifacts materialized second —
/// keeps the lifecycle invariant at every intermediate state, so a crash
/// between the two steps still leaves the cleanup trail behind.
pub proof fn law_create_order_is_crash_safe(s: LifecycleState)
    requires
        lifecycle_safe(s),
    ensures
        ({
            let after_mark = LifecycleState { finalizer_present: true, ..s };
            let after_materialize = LifecycleState { artifacts_present: true, ..after_mark };
            lifecycle_safe(after_mark) && lifecycle_safe(after_materialize)
        }),
{
}

/// The delete order — artifacts removed first, marker cleared only after
/// — keeps the lifecycle invariant at every intermediate state; while
/// removal has not succeeded the marker is retained, so artifacts are
/// never orphaned.
pub proof fn law_delete_order_is_crash_safe(s: LifecycleState)
    requires
        lifecycle_safe(s),
    ensures
        ({
            let after_remove = LifecycleState { artifacts_present: false, ..s };
            let after_unmark = LifecycleState { finalizer_present: false, ..after_remove };
            lifecycle_safe(after_remove) && lifecycle_safe(after_unmark)
        }),
{
}

} // verus!
