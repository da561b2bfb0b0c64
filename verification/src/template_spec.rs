//! The template source descriptor used by workload definitions.

use vstd::prelude::*;

verus! {

/// Where a template tree is fetched from.
pub enum Source {
    /// A Git remote.
    Git,
    /// A local file tree.
    File,
}

/// A template source: the kind of source and where it lives.
pub struct TemplateSpec {
    /// The kind of source the template comes from.
    pub source: Source,
    /// Where the template is stored; its meaning depends on the source.
    pub location: String,
}

} // verus!
