//! Variable mappings: lookup and layered merging.

use gitops_reconciler::kvmap::{lookup, merge};

fn pairs(entries: &[(&str, &str)]) -> Vec<(String, String)> {
    entries.iter().map(|(k, v)| (k.to_string(), v.to_string())).collect()
}

#[test]
fn lookup_finds_the_last_pair_with_the_key() {
    let entries = pairs(&[("a", "1"), ("b", "2"), ("a", "3")]);
    assert_eq!(lookup(&entries, &"a".to_string()).unwrap(), "3");
    assert_eq!(lookup(&entries, &"b".to_string()).unwrap(), "2");
    assert!(lookup(&entries, &"c".to_string()).is_none());
}

#[test]
fn merge_layers_low_to_high_precedence() {
    let base = pairs(&[("cloud", "azure"), ("region", "eastus2")]);
    let overrides = pairs(&[("region", "westus"), ("replicas", "3")]);
    let layers: Vec<&Vec<(String, String)>> = vec![&base, &overrides];
    let merged = merge(&layers);

    assert_eq!(lookup(&merged, &"cloud".to_string()).unwrap(), "azure");
    assert_eq!(lookup(&merged, &"region".to_string()).unwrap(), "westus");
    assert_eq!(lookup(&merged, &"replicas".to_string()).unwrap(), "3");
    assert_eq!(merged.len(), 3);
}

#[test]
fn merge_of_no_layers_is_empty() {
    let layers: Vec<&Vec<(String, String)>> = vec![];
    assert_eq!(merge(&layers).len(), 0);
}
