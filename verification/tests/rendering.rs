//! Rendering a template tree with variable substitution.

use gitops_reconciler::errors::Error;
use gitops_reconciler::render::{render, RenderedFile, TemplateNode};

fn pairs(entries: &[(&str, &str)]) -> Vec<(String, String)> {
    entries.iter().map(|(k, v)| (k.to_string(), v.to_string())).collect()
}

fn segs(entries: &[&str]) -> Vec<String> {
    entries.iter().map(|s| s.to_string()).collect()
}

fn file(name: &str, body: &str) -> TemplateNode {
    TemplateNode::File { name: name.to_string(), body: body.to_string() }
}

fn two_file_template() -> Vec<TemplateNode> {
    vec![
        file("deployment.yaml", "metadata:\n  name: {{CLUSTER_NAME}}\n"),
        file("service.yaml", "spec:\n  selector: {{CLUSTER_NAME}}\n"),
    ]
}

#[test]
fn can_render_workload() {
    let values = pairs(&[("CLUSTER_NAME", "my-cluster")]);
    let template = two_file_template();
    let root_relative_path = segs(&["workloads", "my-cluster"]);

    let files_rendered = render(&template, &root_relative_path, &values).unwrap();

    assert_eq!(files_rendered.len(), 2);
}

#[test]
fn can_render_application() {
    let values = pairs(&[("CLUSTER_NAME", "my-cluster")]);
    let template = two_file_template();
    let root_relative_path = segs(&["applications", "my-cluster"]);

    let paths = render(&template, &root_relative_path, &values).unwrap();

    assert_eq!(paths.len(), 2);
}

#[test]
fn rendering_substitutes_variables_exactly() {
    let values = pairs(&[("CLUSTER_NAME", "my-cluster")]);
    let template = vec![file("deployment.yaml", "name: {{CLUSTER_NAME}}\n")];
    let out = render(&template, &segs(&["workloads", "my-cluster"]), &values).unwrap();

    assert_eq!(out.len(), 1);
    let RenderedFile { path, content } = &out[0];
    assert_eq!(path, &segs(&["workloads", "my-cluster", "deployment.yaml"]));
    assert_eq!(content, "name: my-cluster\n");
}

#[test]
fn rendering_same_inputs_twice_is_identical() {
    let values = pairs(&[("CLUSTER_NAME", "my-cluster")]);
    let template = two_file_template();
    let base = segs(&["workloads", "my-cluster"]);

    let first = render(&template, &base, &values).unwrap();
    let second = render(&template, &base, &values).unwrap();

    assert_eq!(first.len(), second.len());
    for (a, b) in first.iter().zip(second.iter()) {
        assert_eq!(a.path, b.path);
        assert_eq!(a.content, b.content);
    }
}

#[test]
fn hidden_prefixed_directory_is_excluded_entirely() {
    let values = pairs(&[("CLUSTER_NAME", "my-cluster")]);
    let template = vec![
        TemplateNode::Dir {
            name: ".github".to_string(),
            entries: vec![file("control.yaml", "{{UNDEFINED_EVERYWHERE}}")],
        },
        file("deployment.yaml", "name: {{CLUSTER_NAME}}\n"),
    ];
    let out = render(&template, &segs(&["workloads", "my-cluster"]), &values).unwrap();

    assert_eq!(out.len(), 1);
    assert_eq!(out[0].path, segs(&["workloads", "my-cluster", "deployment.yaml"]));
}

#[test]
fn directories_are_recursed_and_mirrored() {
    let values = pairs(&[("CLUSTER_NAME", "my-cluster")]);
    let template = vec![TemplateNode::Dir {
        name: "nested".to_string(),
        entries: vec![file("inner.yaml", "cluster: {{CLUSTER_NAME}}\n")],
    }];
    let out = render(&template, &segs(&["workloads", "my-cluster"]), &values).unwrap();

    assert_eq!(out.len(), 1);
    assert_eq!(out[0].path, segs(&["workloads", "my-cluster", "nested", "inner.yaml"]));
    assert_eq!(out[0].content, "cluster: my-cluster\n");
}

#[test]
fn unresolved_variable_is_a_render_error() {
    let values = pairs(&[]);
    let template = vec![file("deployment.yaml", "name: {{CLUSTER_NAME}}\n")];
    let out = render(&template, &segs(&["workloads", "my-cluster"]), &values);

    assert!(matches!(out, Err(Error::TemplateError(_))));
}
