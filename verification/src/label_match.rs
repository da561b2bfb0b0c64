//! A single label rule: a label key and a compiled regular expression.
//!
//! The rule matches a cluster iff the cluster carries the key and the
//! expression matches the key's value. Absence of the key is a non-match,
//! never an error.

use vstd::prelude::*;

use crate::cluster::Cluster;

verus! {

#[verifier::external_type_specification]
#[verifier::external_body]
pub struct ExRegex(regex::Regex);

/// Whether `regex::Regex::new` accepts the pattern string: compilation
/// succeeds or fails by the pattern alone.
pub uninterp spec fn regex_compiles(pattern: Seq<char>) -> bool;

/// The pattern string a compiled regular expression was built from
/// (`regex::Regex::as_str` hands it back unchanged).
pub uninterp spec fn regex_pattern(r: regex::Regex) -> Seq<char>;

/// Whether the pattern matches anywhere in the haystack: standard regex
/// search semantics, no implicit anchoring. The answer is a function of
/// the pattern and the haystack alone.
pub uninterp spec fn regex_match(pattern: Seq<char>, haystack: Seq<char>) -> bool;

/// Relies on regex::Regex::new: compiles a pattern with the default
/// configuration; it errs exactly on invalid (or oversized) patterns,
/// a property of the pattern string alone.
#[verifier::external_body]
pub fn regex_new(pattern: &str) -> (r: Option<regex::Regex>)
    ensures
        r is Some <==> regex_compiles(pattern@),
        match r {
            Some(re) => regex_pattern(re) == pattern@,
            None => true,
        },
{
    regex::Regex::new(pattern).ok()
}

/// Relies on regex::Regex::is_match: true iff there is a match for the
/// compiled pattern anywhere in the haystack.
#[verifier::external_body]
pub fn regex_is_match(re: &regex::Regex, haystack: &str) -> (r: bool)
    ensures
        r == regex_match(regex_pattern(*re), haystack@),
{
    re.is_match(haystack)
}

/// A label key together with the compiled expression its value must match.
pub struct LabelMatchSpec {
    /// The label key looked up on the cluster.
    pub label: String,
    /// The compiled expression the label's value must match.
    pub regex: regex::Regex,
}

impl LabelMatchSpec {
    /// The rule matches iff the cluster carries the key and the key's
    /// value satisfies the expression; a missing key is a non-match.
    pub open spec fn spec_matches(&self, cluster: &Cluster) -> bool {
        &&& cluster.label_map().contains_key(self.label@)
        &&& regex_match(regex_pattern(self.regex), cluster.label_map()[self.label@])
    }

    /// Builds a rule from a label key and a pattern string; `None` when
    /// the pattern does not compile.
    pub fn try_new(label: String, pattern: &str) -> (r: Option<LabelMatchSpec>)
        ensures
            r is Some <==> regex_compiles(pattern@),
            match r {
                Some(rule) => rule.label@ == label@ && regex_pattern(rule.regex) == pattern@,
                None => true,
            },
    {
        match regex_new(pattern) {
            Some(regex) => Some(LabelMatchSpec { label, regex }),
            None => None,
        }
    }

    /// Evaluates the rule against a cluster's labels.
    pub fn matches(&self, cluster: &Cluster) -> (r: bool)
        ensures
            r == self.spec_matches(cluster),
    {
        match cluster.get_label(&self.label) {
            Some(value) => regex_is_match(&self.regex, value.as_str()),
            None => false,
        }
    }
}

} // verus!
