//! The GitOps synchronizer: create and delete against a pending tree.

use gitops_reconciler::assignment::AssignmentResource;
use gitops_reconciler::gitops::GitopsWorkflow;
use gitops_reconciler::render::TemplateNode;
use gitops_reconciler::repo::RepoState;

fn pairs(entries: &[(&str, &str)]) -> Vec<(String, String)> {
    entries.iter().map(|(k, v)| (k.to_string(), v.to_string())).collect()
}

fn segs(entries: &[&str]) -> Vec<String> {
    entries.iter().map(|s| s.to_string()).collect()
}

fn file(name: &str, body: &str) -> TemplateNode {
    TemplateNode::File { name: name.to_string(), body: body.to_string() }
}

fn deployment_template() -> Vec<TemplateNode> {
    vec![
        file("deployment.yaml", "cluster: {{clusterName}}\ncloud: {{cloud}}\n"),
        file("service.yaml", "region: {{cloudRegion}}\n"),
    ]
}

#[test]
fn can_create_deployment() {
    let workflow =
        GitopsWorkflow::new("git@github.com:timfpark/workload-cluster-gitops").unwrap();

    let application_values: Vec<(String, String)> = pairs(&[]);
    let environment_values: Vec<(String, String)> = pairs(&[]);

    let assignment = AssignmentResource {
        name: Some("azure-eastus2-1-cluster-agent-dev".to_string()),
        namespace: Some("default".to_string()),
        finalizer_present: true,
        deletion_requested: false,
        workload: "cluster-agent".to_string(),
        cluster: "azure-eastus2-1".to_string(),
        environment: "dev".to_string(),
        values: pairs(&[]),
    };

    let mut gitops_repo = RepoState::new();
    let template = deployment_template();

    match workflow.create_deployment(
        &mut gitops_repo,
        &template,
        &application_values,
        &environment_values,
        &assignment,
    ) {
        Err(err) => {
            println!("create deployment failed with: {:?}", err);
            assert_eq!(false, true);
        },
        Ok(plan) => {
            // the two rendered files and the aggregation manifest are staged
            assert_eq!(plan.staged_paths.len(), 3);
            assert_eq!(
                plan.message,
                "Reconciling created ApplicationAssignment azure-eastus2-1-cluster-agent-dev \
                 for Application cluster-agent for Cluster azure-eastus2-1"
            );
        },
    }
}

fn myworkload_assignment() -> AssignmentResource {
    AssignmentResource {
        name: Some("myworkload".to_string()),
        namespace: Some("default".to_string()),
        finalizer_present: true,
        deletion_requested: false,
        workload: "myworkload-definition".to_string(),
        cluster: "az-eastus2-1".to_string(),
        environment: "dev".to_string(),
        values: pairs(&[]),
    }
}

#[test]
fn create_then_delete_round_trip() {
    let workflow = GitopsWorkflow::new("git@example.invalid/gitops").unwrap();
    let assignment = myworkload_assignment();
    let template = deployment_template();
    let mut gitops_repo = RepoState::new();
    // the destination already carries the sync agent's control directory
    gitops_repo.put_file(
        segs(&["az-eastus2-1", "flux-system", "sync.yaml"]),
        "managed externally\n".to_string(),
    );

    let plan = workflow
        .create_deployment(&mut gitops_repo, &template, &pairs(&[]), &pairs(&[]), &assignment)
        .unwrap();

    // the destination now contains the two rendered files at
    // <cluster>/<assignment-name>/...
    let deployment = gitops_repo
        .file_content(&segs(&["az-eastus2-1", "myworkload", "deployment.yaml"]))
        .expect("rendered deployment file");
    assert_eq!(deployment, "cluster: az-eastus2-1\ncloud: azure\n");
    let service = gitops_repo
        .file_content(&segs(&["az-eastus2-1", "myworkload", "service.yaml"]))
        .expect("rendered service file");
    assert_eq!(service, "region: eastus2\n");

    // and an updated aggregation manifest that lists the assignment but
    // not the reserved control directory
    let manifest = gitops_repo
        .file_content(&segs(&["az-eastus2-1", "kustomization.yaml"]))
        .expect("aggregation manifest");
    assert_eq!(
        manifest,
        "apiVersion: kustomize.config.k8s.io/v1beta1\nkind: Kustomization\nresources:\n    - myworkload\n"
    );

    assert_eq!(
        plan.staged_paths,
        vec![
            segs(&["az-eastus2-1", "myworkload", "deployment.yaml"]),
            segs(&["az-eastus2-1", "myworkload", "service.yaml"]),
            segs(&["az-eastus2-1", "kustomization.yaml"]),
        ]
    );

    // a delete removes the output path and de-lists the assignment
    let delete_plan = workflow.delete_deployment(&mut gitops_repo, &assignment).unwrap();
    assert!(gitops_repo
        .file_content(&segs(&["az-eastus2-1", "myworkload", "deployment.yaml"]))
        .is_none());
    assert!(gitops_repo
        .file_content(&segs(&["az-eastus2-1", "myworkload", "service.yaml"]))
        .is_none());
    let manifest_after = gitops_repo
        .file_content(&segs(&["az-eastus2-1", "kustomization.yaml"]))
        .expect("aggregation manifest");
    assert_eq!(
        manifest_after,
        "apiVersion: kustomize.config.k8s.io/v1beta1\nkind: Kustomization\nresources:\n"
    );
    assert_eq!(delete_plan.staged_paths, vec![segs(&["az-eastus2-1", "kustomization.yaml"])]);
    assert_eq!(
        delete_plan.message,
        "Reconciling deleted ApplicationAssignment myworkload for Environment dev \
         for Cluster az-eastus2-1"
    );
}

#[test]
fn recreate_replaces_stale_content() {
    let workflow = GitopsWorkflow::new("git@example.invalid/gitops").unwrap();
    let assignment = myworkload_assignment();
    let mut gitops_repo = RepoState::new();
    // a prior template version left a file the new version no longer has
    gitops_repo.put_file(
        segs(&["az-eastus2-1", "myworkload", "stale.yaml"]),
        "old\n".to_string(),
    );

    workflow
        .create_deployment(
            &mut gitops_repo,
            &deployment_template(),
            &pairs(&[]),
            &pairs(&[]),
            &assignment,
        )
        .unwrap();

    assert!(gitops_repo
        .file_content(&segs(&["az-eastus2-1", "myworkload", "stale.yaml"]))
        .is_none());
    assert!(gitops_repo
        .file_content(&segs(&["az-eastus2-1", "myworkload", "deployment.yaml"]))
        .is_some());
}

#[test]
fn assignment_values_override_platform_defaults() {
    let workflow = GitopsWorkflow::new("git@example.invalid/gitops").unwrap();
    let mut assignment = myworkload_assignment();
    assignment.values = pairs(&[("cloud", "on-premises")]);
    let mut gitops_repo = RepoState::new();

    workflow
        .create_deployment(
            &mut gitops_repo,
            &deployment_template(),
            &pairs(&[("cloud", "workload-says")]),
            &pairs(&[]),
            &assignment,
        )
        .unwrap();

    let deployment = gitops_repo
        .file_content(&segs(&["az-eastus2-1", "myworkload", "deployment.yaml"]))
        .expect("rendered deployment file");
    assert_eq!(deployment, "cluster: az-eastus2-1\ncloud: on-premises\n");
}
