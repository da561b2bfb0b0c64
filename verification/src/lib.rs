//! A declarative-deployment reconciler core.
//!
//! The library contains the verified logic of a GitOps operator: the
//! label/regex cluster matcher, the assignment selector, the template
//! renderer, the aggregation-manifest linker, the repository-state
//! synchronizer, and the reconciliation controller's decision rules.
//! All network and filesystem activity (the resource-store client and
//! the Git transport) lives outside the library and exchanges plain
//! values with it.

pub mod assignment;
pub mod assignment_spec;
pub mod cluster;
pub mod controller;
pub mod errors;
pub mod finalizer;
pub mod gitops;
pub mod kvmap;
pub mod label_match;
pub mod link;
pub mod paths;
pub mod render;
pub mod repo;
pub mod template;
pub mod template_spec;
pub mod templates;
pub mod templates_spec;
pub mod workload;
