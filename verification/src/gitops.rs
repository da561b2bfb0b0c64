//! The GitOps synchronizer.
//!
//! Each create or delete invocation works against fresh, disposable
//! working copies: the surrounding program clones the template repository
//! and the destination repository, loads the template tree and the
//! destination's pending tree into the library's models, and afterwards
//! commits and pushes what this module computed. The destination-relative
//! output path is the fixed layout `<cluster>/<assignment-name>`, so
//! repeated reconciliations of one assignment always target one path.

use vstd::prelude::*;
use vstd::string::StringExecFns;

use crate::assignment::AssignmentResource;
use crate::errors::Error;
use crate::kvmap;
use crate::link;
use crate::paths;
use crate::render;
use crate::render::TemplateNode;
use crate::repo;
use crate::repo::RepoState;

verus! {

/// The synchronizer's configuration: the destination GitOps repository.
pub struct GitopsWorkflow {
    /// The URL of the destination GitOps repository.
    pub application_repo_url: String,
}

/// What one synchronization computed for the commit step: the paths to
/// stage, and the commit message.
pub struct CommitPlan {
    /// Every path to stage, in order: the rendered files, then the
    /// regenerated aggregation manifest.
    pub staged_paths: Vec<Vec<String>>,
    /// The deterministic, human-readable commit message.
    pub message: String,
}

/// How the remote answered a push of the local branch.
pub enum PushOutcome {
    /// The remote accepted the update.
    Accepted,
    /// The remote rejected the update because it was not a fast-forward:
    /// another reconciliation committed concurrently.
    RejectedNonFastForward(String),
    /// The push failed for another reason (transport, authentication).
    Failed(String),
}

/// The model of a staged-path listing.
pub open spec fn staged_views(staged: Seq<Vec<String>>) -> Seq<Seq<Seq<char>>> {
    staged.map_values(|p: Vec<String>| paths::path_view(p@))
}

/// The paths of a rendered artifact set.
pub open spec fn rendered_paths(rendered: Seq<(Seq<Seq<char>>, Seq<char>)>) -> Seq<Seq<Seq<char>>> {
    rendered.map_values(|x: (Seq<Seq<char>>, Seq<char>)| x.0)
}

/// The destination-relative output path of an assignment:
/// `<cluster>/<assignment-name>`.
pub open spec fn spec_output_path(a: AssignmentResource) -> Seq<Seq<char>> {
    seq![a.cluster@, (a.name->Some_0)@]
}

/// The cluster-level directory of an assignment.
pub open spec fn spec_cluster_dir(a: AssignmentResource) -> Seq<Seq<char>> {
    seq![a.cluster@]
}

/// The path of the cluster-level aggregation manifest.
pub open spec fn spec_manifest_path(a: AssignmentResource) -> Seq<Seq<char>> {
    seq![a.cluster@, "kustomization.yaml"@]
}

/// The fixed platform defaults every render starts from.
pub open spec fn spec_default_vars(cluster: Seq<char>) -> Map<Seq<char>, Seq<char>> {
    Map::<Seq<char>, Seq<char>>::empty().insert("clusterName"@, cluster).insert(
        "cloud"@,
        "azure"@,
    ).insert("cloudRegion"@, "eastus2"@)
}

/// The merged variable mapping of one render: platform defaults, then
/// workload-level overrides, then environment-level overrides, then
/// assignment-level overrides; a later layer wins on a key collision.
pub open spec fn spec_merged_vars(
    a: AssignmentResource,
    workload_values: Seq<(String, String)>,
    environment_values: Seq<(String, String)>,
) -> Map<Seq<char>, Seq<char>> {
    spec_default_vars(a.cluster@).union_prefer_right(kvmap::map_of(workload_values))
        .union_prefer_right(kvmap::map_of(environment_values)).union_prefer_right(
        kvmap::map_of(a.values@),
    )
}

/// The commit message of a create synchronization.
pub open spec fn spec_create_message(a: AssignmentResource) -> Seq<char> {
    "Reconciling created ApplicationAssignment "@ + (a.name->Some_0)@
        + " for Application "@ + a.workload@ + " for Cluster "@ + a.cluster@
}

/// The commit message of a delete synchronization.
pub open spec fn spec_delete_message(a: AssignmentResource) -> Seq<char> {
    "Reconciling deleted ApplicationAssignment "@ + (a.name->Some_0)@
        + " for Environment "@ + a.environment@ + " for Cluster "@ + a.cluster@
}

/// What a create synchronization does to the destination's pending tree:
/// clear the assignment's output path, render the template tree into it
/// under the merged variables, regenerate the cluster's aggregation
/// manifest, and stage every rendered path plus the manifest path — or
/// nothing, when rendering fails.
pub open spec fn spec_create_effect(
    files: Seq<(Seq<Seq<char>>, Seq<char>)>,
    template: Seq<TemplateNode>,
    workload_values: Seq<(String, String)>,
    environment_values: Seq<(String, String)>,
    a: AssignmentResource,
) -> Option<(Seq<(Seq<Seq<char>>, Seq<char>)>, Seq<Seq<Seq<char>>>, Seq<char>)> {
    let out = spec_output_path(a);
    let vars = spec_merged_vars(a, workload_values, environment_values);
    match render::spec_render_entries(template, out, vars) {
        None => None,
        Some(rendered) => {
            let removed = repo::spec_remove_under(files, out);
            let applied = repo::spec_apply(removed, rendered);
            let subs = repo::spec_subdirs(applied, spec_cluster_dir(a));
            let with_manifest = repo::spec_put(
                applied,
                spec_manifest_path(a),
                link::spec_manifest(subs),
            );
            let staged = rendered_paths(rendered).push(spec_manifest_path(a));
            Some((with_manifest, staged, spec_create_message(a)))
        },
    }
}

/// What a delete synchronization does to the destination's pending tree:
/// clear the assignment's output path and regenerate the cluster's
/// aggregation manifest, which then no longer lists the assignment.
pub open spec fn spec_delete_files(
    files: Seq<(Seq<Seq<char>>, Seq<char>)>,
    a: AssignmentResource,
) -> Seq<(Seq<Seq<char>>, Seq<char>)> {
    let removed = repo::spec_remove_under(files, spec_output_path(a));
    let subs = repo::spec_subdirs(removed, spec_cluster_dir(a));
    repo::spec_put(removed, spec_manifest_path(a), link::spec_manifest(subs))
}

/// Surfaces a push outcome as the synchronizer's result: a push rejected
/// for not being a fast-forward is a retryable repository error — the
/// caller re-runs the whole sequence from a fresh clone — never a fatal
/// one.
pub fn classify_push(outcome: PushOutcome) -> (r: Result<(), Error>)
    ensures
        match outcome {
            PushOutcome::Accepted => r is Ok,
            PushOutcome::RejectedNonFastForward(m) => r matches Err(
                Error::RepositoryError { message, retryable },
            ) && message@ == m@ && retryable,
            PushOutcome::Failed(m) => r matches Err(
                Error::RepositoryError { message, retryable },
            ) && message@ == m@ && !retryable,
        },
{
    match outcome {
        PushOutcome::Accepted => Ok(()),
        PushOutcome::RejectedNonFastForward(message) => Err(
            Error::RepositoryError { message, retryable: true },
        ),
        PushOutcome::Failed(message) => Err(Error::RepositoryError { message, retryable: false }),
    }
}

impl GitopsWorkflow {
    /// Builds a synchronizer for one destination GitOps repository.
    pub fn new(application_repo_url: &str) -> (r: Result<GitopsWorkflow, Error>)
        ensures
            r matches Ok(w) && w.application_repo_url@ == application_repo_url@,
    {
        Ok(GitopsWorkflow { application_repo_url: application_repo_url.to_owned() })
    }

    /// Materializes an assignment into the destination's pending tree:
    /// clears the assignment's output path, renders the template tree
    /// into `<cluster>/<assignment-name>` under the layered variables,
    /// regenerates the cluster's aggregation manifest, and returns the
    /// staging list and commit message. Re-applying against an already
    /// materialized state replaces it — a safe no-op. On a template
    /// error nothing is rendered; the output path is already cleared, as
    /// the working copy is disposable.
    pub fn create_deployment(
        &self,
        gitops_repo: &mut RepoState,
        template: &Vec<TemplateNode>,
        workload_values: &Vec<(String, String)>,
        environment_values: &Vec<(String, String)>,
        assignment: &AssignmentResource,
    ) -> (r: Result<CommitPlan, Error>)
        requires
            assignment.name is Some,
        ensures
            match r {
                Ok(plan) => spec_create_effect(
                    old(gitops_repo).view_files(),
                    template@,
                    workload_values@,
                    environment_values@,
                    *assignment,
                ) == Some(
                    (
                        final(gitops_repo).view_files(),
                        staged_views(plan.staged_paths@),
                        plan.message@,
                    ),
                ),
                Err(e) => {
                    &&& spec_create_effect(
                        old(gitops_repo).view_files(),
                        template@,
                        workload_values@,
                        environment_values@,
                        *assignment,
                    ) is None
                    &&& e is TemplateError
                    &&& final(gitops_repo).view_files() == repo::spec_remove_under(
                        old(gitops_repo).view_files(),
                        spec_output_path(*assignment),
                    )
                },
            },
    {
        let name: &String = assignment.name.as_ref().unwrap();
        let output_relative: Vec<String> = vec![assignment.cluster.clone(), name.clone()];
        let ghost out_v = paths::path_view(output_relative@);
        proof {
            assert(out_v =~= spec_output_path(*assignment));
        }

        // clear any stale content of a prior template version at the
        // output path
        gitops_repo.remove_under(&output_relative);

        // layer the variables, in increasing precedence
        let mut defaults: Vec<(String, String)> = Vec::new();
        defaults.push((String::from_str("clusterName"), assignment.cluster.clone()));
        defaults.push((String::from_str("cloud"), String::from_str("azure")));
        defaults.push((String::from_str("cloudRegion"), String::from_str("eastus2")));
        let mut layers: Vec<&Vec<(String, String)>> = Vec::new();
        layers.push(&defaults);
        layers.push(workload_values);
        layers.push(environment_values);
        layers.push(&assignment.values);
        let merged = kvmap::merge(&layers);
        let ghost vars_m = kvmap::map_of(merged@);
        proof {
            let d = defaults@;
            let d2 = d.drop_last();
            let d1 = d2.drop_last();
            let d0 = d1.drop_last();
            assert(d0 =~= Seq::<(String, String)>::empty());
            assert(kvmap::map_of(d0) =~= Map::<Seq<char>, Seq<char>>::empty());
            assert(kvmap::map_of(d1) == kvmap::map_of(d0).insert(d1.last().0@, d1.last().1@));
            assert(kvmap::map_of(d2) == kvmap::map_of(d1).insert(d2.last().0@, d2.last().1@));
            assert(kvmap::map_of(d) == kvmap::map_of(d2).insert(d.last().0@, d.last().1@));
            assert(kvmap::map_of(d) =~= spec_default_vars(assignment.cluster@));

            let lv = layers@.map_values(|l: &Vec<(String, String)>| l@);
            assert(lv.len() == 4);
            let l3 = lv.drop_last();
            let l2 = l3.drop_last();
            let l1 = l2.drop_last();
            let l0 = l1.drop_last();
            assert(l0 =~= Seq::<Seq<(String, String)>>::empty());
            assert(kvmap::spec_merge(l0) =~= Map::<Seq<char>, Seq<char>>::empty());
            assert(l1.last() == lv[0] && lv[0] == defaults@);
            assert(l2.last() == lv[1] && lv[1] == workload_values@);
            assert(l3.last() == lv[2] && lv[2] == environment_values@);
            assert(lv.last() == lv[3] && lv[3] == assignment.values@);
            assert(kvmap::spec_merge(l1) == kvmap::spec_merge(l0).union_prefer_right(
                kvmap::map_of(l1.last()),
            ));
            assert(kvmap::spec_merge(l2) == kvmap::spec_merge(l1).union_prefer_right(
                kvmap::map_of(l2.last()),
            ));
            assert(kvmap::spec_merge(l3) == kvmap::spec_merge(l2).union_prefer_right(
                kvmap::map_of(l3.last()),
            ));
            assert(kvmap::spec_merge(lv) == kvmap::spec_merge(l3).union_prefer_right(
                kvmap::map_of(lv.last()),
            ));
            assert(kvmap::spec_merge(l1) =~= kvmap::map_of(defaults@));
            assert(vars_m =~= spec_merged_vars(*assignment, workload_values@, environment_values@));
        }

        // render the template tree into the output path
        let mut files = match render::render(template, &output_relative, &merged) {
            Ok(files) => files,
            Err(e) => {
                return Err(e);
            },
        };
        let ghost rendered = render::rendered_views(files@);

        // write the rendered files into the pending tree, collecting the
        // staging list
        let ghost base_files = gitops_repo.view_files();
        let mut staged: Vec<Vec<String>> = Vec::new();
        proof {
            assert(rendered.skip(0) =~= rendered);
            assert(staged_views(staged@) =~= rendered_paths(rendered).take(0));
        }
        while files.len() > 0
            invariant
                staged@.len() + files@.len() == rendered.len(),
                render::rendered_views(files@) == rendered.skip(staged@.len() as int),
                staged_views(staged@) == rendered_paths(rendered).take(staged@.len() as int),
                repo::spec_apply(base_files, rendered) == repo::spec_apply(
                    gitops_repo.view_files(),
                    render::rendered_views(files@),
                ),
            decreases files@.len(),
        {
            let ghost k = staged@.len() as int;
            let ghost remaining = render::rendered_views(files@);
            proof {
                assert(remaining[0] == rendered[k]);
                assert(remaining.drop_first() =~= rendered.skip(k + 1));
            }
            let f = files.remove(0);
            proof {
                assert(render::rendered_views(files@) =~= remaining.drop_first());
                assert(rendered[k] == (paths::path_view(f.path@), f.content@));
            }
            staged.push(paths::clone_path(&f.path));
            proof {
                assert(staged_views(staged@) =~= rendered_paths(rendered).take(k + 1));
            }
            gitops_repo.put_file(f.path, f.content);
        }
        proof {
            assert(render::rendered_views(files@) =~= Seq::<(Seq<Seq<char>>, Seq<char>)>::empty());
            assert(repo::spec_apply(base_files, rendered) == gitops_repo.view_files());
            assert(staged_views(staged@) =~= rendered_paths(rendered));
        }

        // regenerate the cluster-level aggregation manifest
        let cluster_dir: Vec<String> = vec![assignment.cluster.clone()];
        proof {
            assert(paths::path_view(cluster_dir@) =~= spec_cluster_dir(*assignment));
        }
        let subdirs = gitops_repo.subdirs_of(&cluster_dir);
        let manifest = link::link_manifest(&subdirs);
        let manifest_path: Vec<String> = vec![
            assignment.cluster.clone(),
            String::from_str("kustomization.yaml"),
        ];
        proof {
            assert(paths::path_view(manifest_path@) =~= spec_manifest_path(*assignment));
        }
        staged.push(paths::clone_path(&manifest_path));
        proof {
            assert(staged_views(staged@) =~= rendered_paths(rendered).push(
                spec_manifest_path(*assignment),
            ));
        }
        gitops_repo.put_file(manifest_path, manifest);

        let message = build_create_message(assignment);
        Ok(CommitPlan { staged_paths: staged, message })
    }

    /// Dematerializes an assignment from the destination's pending tree:
    /// clears its output path and regenerates the cluster's aggregation
    /// manifest, which then no longer lists the assignment; only the
    /// manifest path is staged.
    pub fn delete_deployment(&self, gitops_repo: &mut RepoState, assignment: &AssignmentResource)
        -> (r: Result<CommitPlan, Error>)
        requires
            assignment.name is Some,
        ensures
            r matches Ok(plan) && {
                &&& final(gitops_repo).view_files() == spec_delete_files(
                    old(gitops_repo).view_files(),
                    *assignment,
                )
                &&& staged_views(plan.staged_paths@) == seq![spec_manifest_path(*assignment)]
                &&& plan.message@ == spec_delete_message(*assignment)
            },
    {
        let name: &String = assignment.name.as_ref().unwrap();
        let output_relative: Vec<String> = vec![assignment.cluster.clone(), name.clone()];
        proof {
            assert(paths::path_view(output_relative@) =~= spec_output_path(*assignment));
        }

        gitops_repo.remove_under(&output_relative);

        let cluster_dir: Vec<String> = vec![assignment.cluster.clone()];
        proof {
            assert(paths::path_view(cluster_dir@) =~= spec_cluster_dir(*assignment));
        }
        let subdirs = gitops_repo.subdirs_of(&cluster_dir);
        let manifest = link::link_manifest(&subdirs);
        let manifest_path: Vec<String> = vec![
            assignment.cluster.clone(),
            String::from_str("kustomization.yaml"),
        ];
        proof {
            assert(paths::path_view(manifest_path@) =~= spec_manifest_path(*assignment));
        }
        let mut staged: Vec<Vec<String>> = Vec::new();
        staged.push(paths::clone_path(&manifest_path));
        proof {
            assert(staged_views(staged@) =~= seq![spec_manifest_path(*assignment)]);
        }
        gitops_repo.put_file(manifest_path, manifest);

        let message = build_delete_message(assignment);
        Ok(CommitPlan { staged_paths: staged, message })
    }
}

/// Builds the deterministic commit message of a create synchronization,
/// naming the assignment, the workload, and the cluster.
pub fn build_create_message(assignment: &AssignmentResource) -> (r: String)
    requires
        assignment.name is Some,
    ensures
        r@ == spec_create_message(*assignment),
{
    let name: &String = assignment.name.as_ref().unwrap();
    let mut message = String::from_str("Reconciling created ApplicationAssignment ");
    message.append(name.as_str());
    message.append(" for Application ");
    message.append(assignment.workload.as_str());
    message.append(" for Cluster ");
    message.append(assignment.cluster.as_str());
    proof {
        assert(message@ =~= spec_create_message(*assignment));
    }
    message
}

/// Builds the deterministic commit message of a delete synchronization,
/// naming the assignment, the environment, and the cluster.
pub fn build_delete_message(assignment: &AssignmentResource) -> (r: String)
    requires
        assignment.name is Some,
    ensures
        r@ == spec_delete_message(*assignment),
{
    let name: &String = assignment.name.as_ref().unwrap();
    let mut message = String::from_str("Reconciling deleted ApplicationAssignment ");
    message.append(name.as_str());
    message.append(" for Environment ");
    message.append(assignment.environment.as_str());
    message.append(" for Cluster ");
    message.append(assignment.cluster.as_str());
    proof {
        assert(message@ =~= spec_delete_message(*assignment));
    }
    message
}

} // verus!
