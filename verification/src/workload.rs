//! The workload definition: what is deployed, from which template, where.

use vstd::prelude::*;

use crate::assignment_spec::AssignmentSpec;
use crate::template_spec::TemplateSpec;

verus! {

/// The override variables of a workload's generic template.
pub struct OverridesSpec {
    /// The override variable names and values.
    pub values: Vec<(String, String)>,
}

/// A workload definition.
pub struct Workload {
    /// The workload's assignment rules.
    pub assignments: Vec<AssignmentSpec>,
    /// The workload deployment template source for workload clusters.
    pub workload_template: TemplateSpec,
    /// An optional global template source for the control-plane clusters.
    pub global_template: Option<TemplateSpec>,
    /// Value overrides for the generic workload template.
    pub overrides: OverridesSpec,
}

} // verus!
