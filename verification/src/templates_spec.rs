//! The pair of template sources a workload carries.

use vstd::prelude::*;

use crate::template_spec::TemplateSpec;

verus! {

/// The template sources of a workload: the per-cluster application
/// template, and an optional global one for the control plane.
pub struct TemplatesSpec {
    /// The application template source.
    pub application: TemplateSpec,
    /// The optional global template source.
    pub global: Option<TemplateSpec>,
}

} // verus!
