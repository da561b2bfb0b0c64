//! An immutable snapshot of a target cluster as observed at match time.

use vstd::prelude::*;

use crate::kvmap;

verus! {

/// A cluster: a unique name and a mapping of label key to value.
pub struct Cluster {
    /// The cluster's unique identifier.
    pub name: String,
    /// The cluster's labels; each key appears once.
    pub labels: Vec<(String, String)>,
}

impl Cluster {
    /// The label mapping of the cluster.
    pub open spec fn label_map(&self) -> Map<Seq<char>, Seq<char>> {
        kvmap::map_of(self.labels@)
    }

    /// Returns the value the cluster carries for a label key, if any.
    pub fn get_label<'a>(&'a self, key: &String) -> (r: Option<&'a String>)
        ensures
            match r {
                Some(v) => self.label_map().contains_key(key@) && self.label_map()[key@] == v@,
                None => !self.label_map().contains_key(key@),
            },
    {
        kvmap::lookup(&self.labels, key)
    }
}

} // verus!
