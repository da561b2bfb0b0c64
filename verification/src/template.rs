//! The template descriptor of a watched resource: the origin repository,
//! an optional fetch method, and the path within the repository.

use vstd::prelude::*;

verus! {

/// A template source descriptor.
pub struct TemplateSpec {
    /// The optional fetch method.
    pub method: Option<String>,
    /// The origin repository of the template.
    pub source: String,
    /// The template's path within the repository.
    pub path: String,
}

} // verus!
