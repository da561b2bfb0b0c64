//! An assignment rule: an ordered list of label rules plus an optional
//! cap on how many matching clusters may be selected.

use vstd::prelude::*;

use crate::cluster::Cluster;
use crate::label_match::LabelMatchSpec;

verus! {

/// A rule binding a workload to clusters: it applies to a cluster iff
/// every contained label rule matches; an empty rule list matches every
/// cluster. `max_assignments` caps the selection (`None` = unbounded).
pub struct AssignmentSpec {
    /// The rule's identifier.
    pub id: String,
    /// The label rules, all of which must match.
    pub matching_labels: Vec<LabelMatchSpec>,
    /// The largest number of clusters the rule may select; `None` selects
    /// every matching cluster.
    pub max_assignments: Option<i32>,
}

impl AssignmentSpec {
    /// The rule matches iff every contained label rule matches: each
    /// rule's key exists in the cluster's labels and its expression
    /// matches that value. An empty rule list matches everything.
    pub open spec fn spec_matches(&self, cluster: &Cluster) -> bool {
        forall|i: int|
            0 <= i < self.matching_labels@.len() ==> self.matching_labels@[i].spec_matches(cluster)
    }

    /// Evaluates the rule against a cluster: the conjunction of all
    /// contained label rules.
    pub fn matches(&self, cluster: &Cluster) -> (r: bool)
        ensures
            r == self.spec_matches(cluster),
    {
        let mut i: usize = 0;
        while i < self.matching_labels.len()
            invariant
                i <= self.matching_labels@.len(),
                forall|j: int| 0 <= j < i ==> self.matching_labels@[j].spec_matches(cluster),
            decreases self.matching_labels@.len() - i,
        {
            if !self.matching_labels[i].matches(cluster) {
                return false;
            }
            i = i + 1;
        }
        true
    }

    /// The positions, in candidate order, of the clusters the rule
    /// matches.
    pub open spec fn spec_matching_positions(&self, candidates: Seq<Cluster>) -> Seq<int>
        decreases candidates.len(),
    {
        if candidates.len() == 0 {
            Seq::empty()
        } else {
            let prefix = self.spec_matching_positions(candidates.drop_last());
            if self.spec_matches(&candidates.last()) {
                prefix.push(candidates.len() - 1)
            } else {
                prefix
            }
        }
    }

    /// The positions of the clusters the rule selects: the matching ones
    /// in candidate order, cut to `max_assignments` when that is set.
    pub open spec fn spec_selected_positions(&self, candidates: Seq<Cluster>) -> Seq<int> {
        let matched = self.spec_matching_positions(candidates);
        match self.max_assignments {
            None => matched,
            Some(n) => if n <= 0 {
                Seq::empty()
            } else if n < matched.len() {
                matched.take(n as int)
            } else {
                matched
            },
        }
    }

    /// Selects the clusters the rule applies to, by position into the
    /// candidate list: the matching candidates in the caller-supplied
    /// order, and at most `max_assignments` of them when the cap is set.
    /// The choice is a function of the rule and the candidate ordering
    /// alone, so repeated reconciliations select the same clusters.
    pub fn select_clusters(&self, candidates: &Vec<Cluster>) -> (r: Vec<usize>)
        ensures
            r@.map_values(|u: usize| u as int) == self.spec_selected_positions(candidates@),
            forall|i: int| 0 <= i < r@.len() ==> r@[i] < candidates@.len(),
            self.max_assignments matches Some(n) ==> r@.len() <= (if n <= 0 {
                0int
            } else {
                n as int
            }),
    {
        let ghost full = candidates@;
        let mut matched: Vec<usize> = Vec::new();
        let mut i: usize = 0;
        proof {
            assert(full.take(0) =~= Seq::<Cluster>::empty());
            assert(matched@.map_values(|u: usize| u as int) =~= self.spec_matching_positions(
                full.take(0),
            ));
        }
        while i < candidates.len()
            invariant
                i <= candidates@.len(),
                candidates@ == full,
                matched@.map_values(|u: usize| u as int) == self.spec_matching_positions(
                    full.take(i as int),
                ),
                forall|j: int| 0 <= j < matched@.len() ==> matched@[j] < i,
            decreases candidates@.len() - i,
        {
            proof {
                assert(full.take(i as int + 1).drop_last() =~= full.take(i as int));
                assert(full.take(i as int + 1).last() == full[i as int]);
            }
            if self.matches(&candidates[i]) {
                matched.push(i);
                proof {
                    assert(matched@.map_values(|u: usize| u as int)
                        =~= self.spec_matching_positions(full.take(i as int + 1)));
                }
            } else {
                proof {
                    assert(matched@.map_values(|u: usize| u as int)
                        =~= self.spec_matching_positions(full.take(i as int + 1)));
                }
            }
            i = i + 1;
        }
        proof {
            assert(full.take(full.len() as int) =~= full);
        }
        match self.max_assignments {
            None => matched,
            Some(n) => {
                if n <= 0 {
                    proof {
                        assert(Seq::<usize>::empty().map_values(|u: usize| u as int)
                            =~= Seq::<int>::empty());
                    }
                    Vec::new()
                } else {
                    let cap = n as usize;
                    if cap < matched.len() {
                        let ghost before = matched@;
                        matched.truncate(cap);
                        proof {
                            assert(matched@.map_values(|u: usize| u as int)
                                =~= before.map_values(|u: usize| u as int).take(n as int));
                        }
                    }
                    matched
                }
            },
        }
    }
}

/// The selection never exceeds the rule's cap: with `max_assignments`
/// set to `n`, at most `n` clusters are selected, whatever the candidate
/// set.
pub proof fn law_selection_bounded(rule: AssignmentSpec, candidates: Seq<Cluster>, n: i32)
    requires
        rule.max_assignments == Some(n),
    ensures
        n >= 0 ==> rule.spec_selected_positions(candidates).len() <= n,
        n < 0 ==> rule.spec_selected_positions(candidates).len() == 0,
{
}

/// The selection is deterministic: two selections over the same rule and
/// the same candidate ordering pick the same positions.
pub proof fn law_selection_deterministic(
    rule: AssignmentSpec,
    candidates: Seq<Cluster>,
    r1: Seq<int>,
    r2: Seq<int>,
)
    requires
        r1 == rule.spec_selected_positions(candidates),
        r2 == rule.spec_selected_positions(candidates),
    ensures
        r1 == r2,
{
}

} // verus!
