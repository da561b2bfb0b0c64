//! The aggregation-manifest linker.

use gitops_reconciler::link::link_manifest;

fn segs(entries: &[&str]) -> Vec<String> {
    entries.iter().map(|s| s.to_string()).collect()
}

#[test]
fn link_excludes_the_reserved_directory() {
    let manifest = link_manifest(&segs(&["a", "b", "flux-system"]));
    assert_eq!(
        manifest,
        "apiVersion: kustomize.config.k8s.io/v1beta1\nkind: Kustomization\nresources:\n    - a\n    - b\n"
    );
}

#[test]
fn link_of_nothing_lists_nothing() {
    let manifest = link_manifest(&segs(&[]));
    assert_eq!(
        manifest,
        "apiVersion: kustomize.config.k8s.io/v1beta1\nkind: Kustomization\nresources:\n"
    );
}

#[test]
fn link_keeps_listing_order() {
    let manifest = link_manifest(&segs(&["zeta", "alpha"]));
    assert_eq!(
        manifest,
        "apiVersion: kustomize.config.k8s.io/v1beta1\nkind: Kustomization\nresources:\n    - zeta\n    - alpha\n"
    );
}
