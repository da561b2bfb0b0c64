//! The pair of template references a workload names.

use vstd::prelude::*;

verus! {

/// The template references of a workload: the per-cluster application
/// template, and an optional global one for the control plane.
pub struct TemplatesSpec {
    /// The application template reference.
    pub application: String,
    /// The optional global template reference.
    pub global: Option<String>,
}

} // verus!
