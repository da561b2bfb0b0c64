//! The assignment resource: the unit of desired state binding one
//! workload to one target cluster.

use vstd::prelude::*;

verus! {

/// An observed assignment resource, as the external resource store hands
/// it to the reconciler. The lifecycle markers are owned by the store and
/// are read-only here.
pub struct AssignmentResource {
    /// The resource's name, when the store supplied one.
    pub name: Option<String>,
    /// The namespace/scope the resource lives in, when it has one; a
    /// resource without a scope cannot be reconciled.
    pub namespace: Option<String>,
    /// Whether the reconciler's lifecycle marker is present on the
    /// resource's metadata.
    pub finalizer_present: bool,
    /// Whether the store has marked the resource for deletion.
    pub deletion_requested: bool,
    /// The name of the workload/application definition the assignment
    /// references.
    pub workload: String,
    /// The target cluster's identifier.
    pub cluster: String,
    /// The environment the assignment belongs to.
    pub environment: String,
    /// The assignment-level override variables.
    pub values: Vec<(String, String)>,
}

} // verus!
