//! The runbook that brings a cluster up.

use vstd::prelude::*;
use vstd::string::*;
use crate::cluster::{join_path, joined};
use crate::config::Config;
use crate::runbook::{run, run_view, say, stage_views, Stage, StageView};
use crate::runner::{plain_cmd, strs, Cmd, CmdView, Expect, ExpectView};
use crate::terraform::tfvars_file;

verus! {

/// What the operator is told before a cluster is brought up.
pub const LAUNCH_INTRO: &'static str =
    "\nThis will step you through launching a cluster.\n1. You will be prompted before each step\n2. You will be shown the commands that will be run\n3. STDOUT and STDERR will be printed to your console, as if you'd run the commands manually.\n";

/// The directory of the project that provisions clusters.
pub open spec fn tectonic_dir(terraforming_path: Seq<char>) -> Seq<char> {
    joined(terraforming_path, "projects/kubernetes-tectonic"@)
}

/// The command that plans a cluster's changes.
pub open spec fn launch_plan(dir: Seq<char>, cluster_id: Seq<char>, profile: Seq<char>) -> CmdView {
    plain_cmd(
        seq![
            "terraform"@,
            "plan"@,
            "-out"@,
            "tfplan.out"@,
            "-var-file"@,
            tfvars_file(cluster_id),
        ],
    ).with_env("AWS_PROFILE"@, profile).with_dir(dir)
}

/// The command that applies the plan that was written last.
pub open spec fn launch_apply(dir: Seq<char>, profile: Seq<char>) -> CmdView {
    plain_cmd(seq!["terraform"@, "apply"@, "tfplan.out"@]).with_env("AWS_PROFILE"@, profile).with_dir(
        dir,
    )
}

/// The stages that bring the cluster `cluster_id` up: fetch the modules,
/// select the workspace, plan, apply (the first apply is expected to
/// fail), then plan and apply once more.
pub open spec fn launch_stages(
    terraforming_path: Seq<char>,
    profile: Seq<char>,
    cluster_id: Seq<char>,
) -> Seq<StageView> {
    let dir = tectonic_dir(terraforming_path);
    seq![
        run_view(
            "Execute command?"@,
            plain_cmd(seq!["terraform"@, "get"@, "-update"@]).with_dir(dir),
            ExpectView::Success,
        ),
        StageView::Say("\nSelect the correct workspace"@),
        run_view(
            "Execute command?"@,
            plain_cmd(seq!["terraform"@, "workspace"@, "select"@, cluster_id]).with_dir(dir),
            ExpectView::Success,
        ),
        StageView::Say("\nPlan changes to kubernetes-tectonic"@),
        run_view("Execute command?"@, launch_plan(dir, cluster_id, profile), ExpectView::Success),
        StageView::Say("\nApply kubernetes-tectonic"@),
        run_view("Execute command?"@, launch_apply(dir, profile), ExpectView::Failure),
        StageView::Say("\nRe-plan changes to kubernetes-tectonic after expected error"@),
        run_view("Execute command?"@, launch_plan(dir, cluster_id, profile), ExpectView::Success),
        StageView::Say("\nRe-apply kubernetes-tectonic"@),
        run_view("Execute command?"@, launch_apply(dir, profile), ExpectView::Success),
        StageView::Say("\nEnjoy your new cluster :)"@),
    ]
}

fn plan_cmd(dir: &str, cluster_id: &str, profile: &str) -> (c: Cmd)
    ensures
        c@ == launch_plan(dir@, cluster_id@, profile@),
{
    let file = String::from_str(cluster_id).concat(".tfvars");
    let argv = vec!["terraform", "plan", "-out", "tfplan.out", "-var-file", file.as_str()];
    assert(strs(argv@) == seq![
        "terraform"@,
        "plan"@,
        "-out"@,
        "tfplan.out"@,
        "-var-file"@,
        tfvars_file(cluster_id@),
    ]);
    let mut c = Cmd::new(argv);
    c.env("AWS_PROFILE", profile);
    c.dir(String::from_str(dir));
    c
}

fn apply_cmd(dir: &str, profile: &str) -> (c: Cmd)
    ensures
        c@ == launch_apply(dir@, profile@),
{
    let argv = vec!["terraform", "apply", "tfplan.out"];
    assert(strs(argv@) == seq!["terraform"@, "apply"@, "tfplan.out"@]);
    let mut c = Cmd::new(argv);
    c.env("AWS_PROFILE", profile);
    c.dir(String::from_str(dir));
    c
}

/// The runbook that brings the cluster `cluster_id` up.
pub fn launch_cluster(conf: &Config, cluster_id: &str) -> (stages: Vec<Stage>)
    ensures
        stage_views(stages@) == launch_stages(
            conf.terraforming_path@,
            conf.infra_profile@,
            cluster_id@,
        ),
{
    let path = join_path(conf.terraforming_path.as_str(), "projects/kubernetes-tectonic");
    let dir = path.as_str();
    let profile = conf.infra_profile.as_str();

    let argv = vec!["terraform", "get", "-update"];
    assert(strs(argv@) == seq!["terraform"@, "get"@, "-update"@]);
    let mut update = Cmd::new(argv);
    update.dir(String::from_str(dir));

    let argv = vec!["terraform", "workspace", "select", cluster_id];
    assert(strs(argv@) == seq!["terraform"@, "workspace"@, "select"@, cluster_id@]);
    let mut select = Cmd::new(argv);
    select.dir(String::from_str(dir));

    let stages = vec![
        run("Execute command?", update, Expect::Success),
        say("\nSelect the correct workspace"),
        run("Execute command?", select, Expect::Success),
        say("\nPlan changes to kubernetes-tectonic"),
        run("Execute command?", plan_cmd(dir, cluster_id, profile), Expect::Success),
        say("\nApply kubernetes-tectonic"),
        run("Execute command?", apply_cmd(dir, profile), Expect::Failure),
        say("\nRe-plan changes to kubernetes-tectonic after expected error"),
        run("Execute command?", plan_cmd(dir, cluster_id, profile), Expect::Success),
        say("\nRe-apply kubernetes-tectonic"),
        run("Execute command?", apply_cmd(dir, profile), Expect::Success),
        say("\nEnjoy your new cluster :)"),
    ];
    assert(stage_views(stages@) == launch_stages(
        conf.terraforming_path@,
        conf.infra_profile@,
        cluster_id@,
    ));
    stages
}

} // verus!
