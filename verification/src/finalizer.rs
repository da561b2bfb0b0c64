//! The finalizer manager.
//!
//! The lifecycle marker is a persisted flag on the assignment resource:
//! its presence records that the reconciler owns cleanup, so it must
//! never be absent while materialized artifacts exist. Both operations
//! are idempotent partial updates; this module computes the partial
//! documents the store is patched with, and models the snapshot the
//! store hands back.

use vstd::prelude::*;
use vstd::string::StringExecFns;

use crate::assignment::AssignmentResource;

verus! {

/// The merge-patch document that ensures the lifecycle marker is present;
/// patching it again when the marker is already present has no effect.
pub open spec fn spec_add_finalizer_patch() -> Seq<char> {
    "{\"metadata\":{\"finalizers\":[\"application-assignment.microsoft.com\"]}}"@
}

/// The merge-patch document that clears all lifecycle markers; patching
/// it again when none is present has no effect.
pub open spec fn spec_remove_finalizer_patch() -> Seq<char> {
    "{\"metadata\":{\"finalizers\":null}}"@
}

/// Builds the partial document that adds the lifecycle marker.
pub fn add_finalizer_patch() -> (r: String)
    ensures
        r@ == spec_add_finalizer_patch(),
{
    String::from_str("{\"metadata\":{\"finalizers\":[\"application-assignment.microsoft.com\"]}}")
}

/// Builds the partial document that removes every lifecycle marker.
pub fn remove_finalizer_patch() -> (r: String)
    ensures
        r@ == spec_remove_finalizer_patch(),
{
    String::from_str("{\"metadata\":{\"finalizers\":null}}")
}

/// The resource snapshot after the marker is added: only the marker
/// changes, and adding it twice changes nothing more.
pub open spec fn spec_with_finalizer(a: AssignmentResource) -> AssignmentResource {
    AssignmentResource { finalizer_present: true, ..a }
}

/// The resource snapshot after the markers are cleared.
pub open spec fn spec_without_finalizer(a: AssignmentResource) -> AssignmentResource {
    AssignmentResource { finalizer_present: false, ..a }
}

/// Models a successful add-finalizer patch: the updated snapshot carries
/// the marker and nothing else changes.
pub fn apply_add_finalizer(a: AssignmentResource) -> (r: AssignmentResource)
    ensures
        r == spec_with_finalizer(a),
{
    let mut updated = a;
    updated.finalizer_present = true;
    updated
}

/// Models a successful remove-finalizer patch: the updated snapshot
/// carries no marker and nothing else changes.
pub fn apply_remove_finalizer(a: AssignmentResource) -> (r: AssignmentResource)
    ensures
        r == spec_without_finalizer(a),
{
    let mut updated = a;
    updated.finalizer_present = false;
    updated
}

} // verus!
