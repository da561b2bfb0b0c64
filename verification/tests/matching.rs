//! Label-rule and assignment-rule matching against cluster labels.

use gitops_reconciler::assignment_spec::AssignmentSpec;
use gitops_reconciler::cluster::Cluster;
use gitops_reconciler::label_match::LabelMatchSpec;
use regex::Regex;

fn pairs(entries: &[(&str, &str)]) -> Vec<(String, String)> {
    entries.iter().map(|(k, v)| (k.to_string(), v.to_string())).collect()
}

#[test]
fn spec_can_match_equality() {
    let labels = pairs(&[
        ("name", "azure-eastus2-1"),
        ("cloud", "azure"),
        ("region", "eastus2"),
    ]);
    let cluster = Cluster { name: "azure-eastus2-1".to_string(), labels };
    let regex = Regex::new("azure").unwrap();
    let label_spec = LabelMatchSpec { label: "cloud".to_string(), regex };
    let matching_labels = vec![label_spec];
    let assignment_spec =
        AssignmentSpec { id: "1".to_string(), matching_labels, max_assignments: None };

    assert_eq!(assignment_spec.matches(&cluster), true);
}

#[test]
fn spec_can_match_regex() {
    let labels = pairs(&[
        ("name", "azure-eastus2-1"),
        ("cloud", "azure"),
        ("region", "eastus2"),
    ]);
    let cluster = Cluster { name: "azure-eastus2-1".to_string(), labels };

    let regex = Regex::new("eastus(.)*").unwrap();
    let label_spec = LabelMatchSpec { label: "region".to_string(), regex };
    let matching_labels = vec![label_spec];
    let assignment_spec =
        AssignmentSpec { id: "1".to_string(), matching_labels, max_assignments: None };

    assert_eq!(assignment_spec.matches(&cluster), true);
}

#[test]
fn assignment_spec_can_not_match_regex() {
    let labels = pairs(&[
        ("name", "azure-eastus2-1"),
        ("cloud", "azure"),
        ("region", "eastus2"),
    ]);
    let cluster = Cluster { name: "azure-eastus2-1".to_string(), labels };

    let regex = Regex::new("westus(.)*").unwrap();
    let label_spec = LabelMatchSpec { label: "region".to_string(), regex };
    let matching_labels = vec![label_spec];
    let assignment_spec =
        AssignmentSpec { id: "1".to_string(), matching_labels, max_assignments: None };

    assert_eq!(assignment_spec.matches(&cluster), false);
}

#[test]
fn can_match_exact_spec() {
    let labels = pairs(&[("name", "azure-eastus2-1")]);
    let cluster = Cluster { name: "azure-eastus2-1".to_string(), labels };
    let regex = Regex::new("azure-eastus2-1").unwrap();
    let cluster_spec = LabelMatchSpec { label: "name".to_string(), regex };

    assert_eq!(cluster_spec.matches(&cluster), true);
}

#[test]
fn can_match_regex() {
    let labels = pairs(&[("name", "azure-eastus2-1")]);
    let cluster = Cluster { name: "azure-eastus2-1".to_string(), labels };
    let regex = Regex::new("azure-(.)*").unwrap();
    let cluster_spec = LabelMatchSpec { label: "name".to_string(), regex };

    assert_eq!(cluster_spec.matches(&cluster), true);
}

#[test]
fn label_match_spec_can_not_match_regex() {
    let labels = pairs(&[("name", "gcp-eastus2-1")]);
    let cluster = Cluster { name: "gcp-eastus2-1".to_string(), labels };
    let regex = Regex::new("azure-(.)*").unwrap();
    let cluster_spec = LabelMatchSpec { label: "name".to_string(), regex };

    assert_eq!(cluster_spec.matches(&cluster), false);
}

#[test]
fn rules_can_be_built_from_pattern_strings() {
    let rule = LabelMatchSpec::try_new("name".to_string(), "azure-(.)*").unwrap();
    let cluster = Cluster { name: "azure-eastus2-1".to_string(), labels: pairs(&[("name", "azure-eastus2-1")]) };
    assert_eq!(rule.matches(&cluster), true);
    assert!(LabelMatchSpec::try_new("name".to_string(), "foo(bar").is_none());
}

#[test]
fn missing_label_key_is_a_non_match() {
    let labels = pairs(&[("cloud", "azure")]);
    let cluster = Cluster { name: "azure-eastus2-1".to_string(), labels };
    let regex = Regex::new("(.)*").unwrap();
    let cluster_spec = LabelMatchSpec { label: "region".to_string(), regex };

    assert_eq!(cluster_spec.matches(&cluster), false);
}

#[test]
fn empty_rule_list_matches_everything() {
    let cluster = Cluster { name: "anything".to_string(), labels: pairs(&[]) };
    let assignment_spec = AssignmentSpec {
        id: "1".to_string(),
        matching_labels: vec![],
        max_assignments: None,
    };

    assert_eq!(assignment_spec.matches(&cluster), true);
}

fn three_clusters() -> Vec<Cluster> {
    vec![
        Cluster {
            name: "azure-eastus2-1".to_string(),
            labels: pairs(&[("cloud", "azure")]),
        },
        Cluster { name: "gcp-1".to_string(), labels: pairs(&[("cloud", "gcp")]) },
        Cluster {
            name: "azure-westus-2".to_string(),
            labels: pairs(&[("cloud", "azure")]),
        },
    ]
}

#[test]
fn selection_respects_max_assignments() {
    let regex = Regex::new("azure").unwrap();
    let rule = AssignmentSpec {
        id: "1".to_string(),
        matching_labels: vec![LabelMatchSpec { label: "cloud".to_string(), regex }],
        max_assignments: Some(1),
    };
    let selected = rule.select_clusters(&three_clusters());
    assert_eq!(selected, vec![0]);
}

#[test]
fn selection_is_deterministic_and_unbounded_without_cap() {
    let make_rule = || AssignmentSpec {
        id: "1".to_string(),
        matching_labels: vec![LabelMatchSpec {
            label: "cloud".to_string(),
            regex: Regex::new("azure").unwrap(),
        }],
        max_assignments: None,
    };
    let first = make_rule().select_clusters(&three_clusters());
    let second = make_rule().select_clusters(&three_clusters());
    assert_eq!(first, vec![0, 2]);
    assert_eq!(first, second);
}
