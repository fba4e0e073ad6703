//! The runbooks that tear a cluster down: the cluster itself, and the
//! routes that point to it.

use vstd::prelude::*;
use vstd::string::*;
use crate::cluster::{cluster_elbs_url, join_path, joined, path_line, quoted, ELBS_URL};
use crate::config::Config;
use crate::runbook::{ask, ask_view, browse, browse_view, direct, direct_view, say, stage_views};
use crate::runbook::{Labels, Refusal, Stage, StageView, StatusRule};
use crate::terraform::{apply, plan_destroy_argv, plan_destroy_with_tfvars_file, state_rm, tool};
use crate::terraform::{workspace_select, workspace_show};
use crate::runner::strs;

verus! {

/// What the operator is told before a cluster is torn down.
pub const DESTROY_INTRO: &'static str =
    "\nThis will step you through destroying a cluster.\n1. You will be prompted before each step\n2. You will be shown the commands that will be run\n3. STDOUT and STDERR will be printed to your console, as if you'd run the commands manually.\n";

/// The command line that removes the troublesome state, as it is shown.
pub const STATE_RM_LINE: &'static str =
    "Command: terraform state rm \\ \n    module.tectonic-aws.module.bootkube.template_dir.bootkube \\\n    module.tectonic-aws.module.tectonic.template_dir.tectonic \\\n    module.tectonic-aws.module.bootkube.template_dir.bootkube_bootstrap";

/// The error of a plan that could not be made.
pub const PLAN_FAILURE: &'static str =
    "Could not \"terraform plan\". \nYou probably need to re-run this tool and remove problematic bootkube/tectonic state.";

/// Why the workspace is shown once more.
pub const WORKSPACE_CAVEAT: &'static str =
    "Unfortunately, the output of the plan does not contain the cluster id\nso we must double check the workspace we are on!\n";

/// What the operator is told of the load balancers, up to the cluster's name.
pub const ELBS_HEAD: &'static str =
    "\nA manual step is required in the AWS web console.\nThere will be 3 ELBs created by Kubernetes that will be left running.\n\nThe following URL will show all ELBs related to cluster id ";

/// What the operator is told of the load balancers, after their address.
pub const ELBS_TAIL: &'static str =
    "\n\nINSPECT EACH ONE CAREFULLY BEFORE YOU DELETE IT. There should be 0 live instances\nassociated with the ELBs you delete.\n";

/// The first of the states that are removed before a cluster's destruction is planned.
pub const BOOTKUBE_STATE: &'static str =
    "module.tectonic-aws.module.bootkube.template_dir.bootkube";

/// The second of the states that are removed.
pub const TECTONIC_STATE: &'static str =
    "module.tectonic-aws.module.tectonic.template_dir.tectonic";

/// The third of the states that are removed.
pub const BOOTSTRAP_STATE: &'static str =
    "module.tectonic-aws.module.bootkube.template_dir.bootkube_bootstrap";

/// The line that shows the command that plans a destruction.
pub open spec fn plan_line(cluster_id: Seq<char>) -> Seq<char> {
    "Command: terraform plan -out tfplan.out -var-file "@ + cluster_id
        + ".tfvars -destroy -detailed-exitcode"@
}

/// The line that shows the command that selects a workspace.
pub open spec fn select_line(cluster_id: Seq<char>) -> Seq<char> {
    "Command: terraform workspace select "@ + cluster_id
}

/// The line that tells where a command will run.
pub open spec fn where_line(dir: Seq<char>) -> Seq<char> {
    "Path: "@ + quoted(dir)
}

/// The address that lists a cluster's load balancers.
pub open spec fn elbs_url(cluster_id: Seq<char>) -> Seq<char> {
    ELBS_URL@ + cluster_id + "=*"@
}

/// The stages that remove the routes that point to the cluster
/// `cluster_id`: select the workspace, plan the destruction, apply it,
/// and offer the list of the load balancers that are left. A "no" ends
/// the runbook; a command that fails ends it with an error, where for
/// the plan only exit code 1 counts as failure.
pub open spec fn ingress_stages(
    terraforming_path: Seq<char>,
    profile: Seq<char>,
    cluster_id: Seq<char>,
) -> Seq<StageView> {
    let dir = joined(terraforming_path, "projects/kubernetes-ingress"@);
    seq![
        StageView::Say("\nWe will now step through destroying the kubernetes-ingress project"@),
        StageView::Say("First, we must select the right workspace"@),
        StageView::Say(where_line(dir)),
        StageView::Say(select_line(cluster_id)),
        direct_view(
            "Execute command?"@,
            Labels::YesNo,
            tool(seq!["terraform"@, "workspace"@, "select"@, cluster_id], dir, profile),
            StatusRule::Success,
            Refusal::Stop,
            "could not select workspace"@,
        ),
        StageView::Say(
            "\nWe will now prepare a -destroy plan against terraforming/projects/kubernetes-ingress"@,
        ),
        StageView::Say(where_line(dir)),
        StageView::Say(plan_line(cluster_id)),
        direct_view(
            "Execute command?"@,
            Labels::YesNo,
            tool(plan_destroy_argv(cluster_id), dir, profile),
            StatusRule::NotOne,
            Refusal::Stop,
            "unexpected error in -destroy plan"@,
        ),
        StageView::Say(
            "We are ready to apply. This will DESTROY DNS routes that point to "@ + cluster_id,
        ),
        StageView::Say(where_line(dir)),
        StageView::Say("Command: terraform apply tfplan.out"@),
        direct_view(
            "Execute command?"@,
            Labels::YesNo,
            tool(seq!["terraform"@, "apply"@, "tfplan.out"@], dir, profile),
            StatusRule::Success,
            Refusal::Stop,
            "unexpected error"@,
        ),
        StageView::Say("\nWe have removed the DNS records!"@),
        StageView::Say(
            ELBS_HEAD@ + cluster_id + "\n\n"@ + elbs_url(cluster_id) + ELBS_TAIL@,
        ),
        browse_view(
            "Open this url in your browser? (remember to use the the infra profile)"@,
            elbs_url(cluster_id),
        ),
    ]
}

/// The runbook that removes the routes that point to the cluster `cluster_id`.
pub fn destroy_kubernetes_ingress(conf: &Config, cluster_id: &str) -> (stages: Vec<Stage>)
    ensures
        stage_views(stages@) == ingress_stages(
            conf.terraforming_path@,
            conf.v1_profile@,
            cluster_id@,
        ),
{
    let path = join_path(conf.terraforming_path.as_str(), "projects/kubernetes-ingress");
    let dir = path.as_str();
    let profile = conf.v1_profile.as_str();
    let url = cluster_elbs_url(cluster_id);
    let select = String::from_str("Command: terraform workspace select ").concat(cluster_id);
    let plan = String::from_str("Command: terraform plan -out tfplan.out -var-file ").concat(
        cluster_id,
    ).concat(".tfvars -destroy -detailed-exitcode");
    let ready = String::from_str(
        "We are ready to apply. This will DESTROY DNS routes that point to ",
    ).concat(cluster_id);
    let elbs = String::from_str(ELBS_HEAD).concat(cluster_id).concat("\n\n").concat(
        url.as_str(),
    ).concat(ELBS_TAIL);

    let stages = vec![
        say("\nWe will now step through destroying the kubernetes-ingress project"),
        say("First, we must select the right workspace"),
        say(path_line(dir).as_str()),
        say(select.as_str()),
        direct(
            "Execute command?",
            Labels::YesNo,
            workspace_select(dir, cluster_id, profile),
            StatusRule::Success,
            Refusal::Stop,
            "could not select workspace",
        ),
        say(
            "\nWe will now prepare a -destroy plan against terraforming/projects/kubernetes-ingress",
        ),
        say(path_line(dir).as_str()),
        say(plan.as_str()),
        direct(
            "Execute command?",
            Labels::YesNo,
            plan_destroy_with_tfvars_file(dir, cluster_id, profile),
            StatusRule::NotOne,
            Refusal::Stop,
            "unexpected error in -destroy plan",
        ),
        say(ready.as_str()),
        say(path_line(dir).as_str()),
        say("Command: terraform apply tfplan.out"),
        direct(
            "Execute command?",
            Labels::YesNo,
            apply(dir, profile),
            StatusRule::Success,
            Refusal::Stop,
            "unexpected error",
        ),
        say("\nWe have removed the DNS records!"),
        say(elbs.as_str()),
        browse(
            "Open this url in your browser? (remember to use the the infra profile)",
            url.as_str(),
        ),
    ];
    assert(stage_views(stages@) == ingress_stages(
        conf.terraforming_path@,
        conf.v1_profile@,
        cluster_id@,
    ));
    stages
}

/// The stages that open the destruction of a cluster: what is about to
/// happen, and the question whether to proceed.
pub open spec fn intro_stages() -> Seq<StageView> {
    seq![
        StageView::Say(DESTROY_INTRO@),
        ask_view("Do you want to proceed? (Use arrows)"@, Refusal::Stop, Seq::<char>::empty()),
        StageView::Say(Seq::<char>::empty()),
    ]
}

/// The runbook that opens the destruction of a cluster, before it is
/// known which cluster it is.
pub fn destroy_cluster_intro() -> (stages: Vec<Stage>)
    ensures
        stage_views(stages@) == intro_stages(),
{
    proof {
        reveal_strlit("");
        assert(""@ == Seq::<char>::empty());
    }
    let stages = vec![
        say(DESTROY_INTRO),
        ask("Do you want to proceed? (Use arrows)", Refusal::Stop, ""),
        say(""),
    ];
    assert(stage_views(stages@) == intro_stages());
    stages
}

/// The stages that tear the cluster `cluster_id` down, up to the
/// question whether its routes are to go as well: select the workspace,
/// remove the troublesome state (which may be skipped), plan the
/// destruction, show the workspace and have it confirmed, apply (a
/// failure here is tolerated), and plan once more.
pub open spec fn teardown_stages(
    terraforming_path: Seq<char>,
    profile: Seq<char>,
    cluster_id: Seq<char>,
) -> Seq<StageView> {
    let dir = joined(terraforming_path, "projects/kubernetes-tectonic"@);
    seq![
        StageView::Say(
            "\nWe will now prepare a -destroy plan against terraforming/projects/kubernetes-tectonic"@,
        ),
        StageView::Say("First, we must select the right workspace"@),
        StageView::Say(where_line(dir)),
        StageView::Say(select_line(cluster_id)),
        direct_view(
            "Execute command?"@,
            Labels::YesNo,
            tool(seq!["terraform"@, "workspace"@, "select"@, cluster_id], dir, profile),
            StatusRule::Success,
            Refusal::Stop,
            "terraform workspace select"@,
        ),
        StageView::Say(
            "\nNext, we can optionally remove state that sometimes causes problems"@,
        ),
        StageView::Say(where_line(dir)),
        StageView::Say(STATE_RM_LINE@),
        direct_view(
            "Execute command or skip?"@,
            Labels::ExecuteSkip,
            tool(
                seq!["terraform"@, "state"@, "rm"@] + seq![
                    BOOTKUBE_STATE@,
                    TECTONIC_STATE@,
                    BOOTSTRAP_STATE@,
                ],
                dir,
                profile,
            ),
            StatusRule::Success,
            Refusal::Skip,
            "error: terraform state rm"@,
        ),
        StageView::Say("\nNext, we actually plan"@),
        StageView::Say(where_line(dir)),
        StageView::Say(plan_line(cluster_id)),
        direct_view(
            "Execute command?"@,
            Labels::YesNo,
            tool(plan_destroy_argv(cluster_id), dir, profile),
            StatusRule::NotOne,
            Refusal::Stop,
            PLAN_FAILURE@,
        ),
        StageView::Say(
            "The plan we just ran should show approximately 120 resources to delete."@,
        ),
        StageView::Say(WORKSPACE_CAVEAT@),
        StageView::Say(where_line(dir)),
        StageView::Say("Command: terraform workspace show"@),
        direct_view(
            "Execute_command?"@,
            Labels::YesNo,
            tool(seq!["terraform"@, "workspace"@, "show"@], dir, profile),
            StatusRule::Success,
            Refusal::Stop,
            "terraform workspace show"@,
        ),
        ask_view("\nAre we on the right workspace?"@, Refusal::Fail, "wrong workspace"@),
        StageView::Say("\nWe are ready to destroy the cluster. THERE IS NO GOING BACK"@),
        StageView::Say(where_line(dir)),
        StageView::Say("Command: terraform apply tfplan.out"@),
        direct_view(
            "Execute command?"@,
            Labels::YesNo,
            tool(seq!["terraform"@, "apply"@, "tfplan.out"@], dir, profile),
            StatusRule::Tolerated,
            Refusal::Stop,
            "\nterraform apply encountered an error, but this is expected."@,
        ),
        StageView::Say(
            "We will now create another -destroy plan to ensure all resources are cleaned up"@,
        ),
        StageView::Say("This plan should show no diff"@),
        StageView::Say(where_line(dir)),
        StageView::Say(plan_line(cluster_id)),
        direct_view(
            "Execute command?"@,
            Labels::YesNo,
            tool(plan_destroy_argv(cluster_id), dir, profile),
            StatusRule::NotOne,
            Refusal::Stop,
            "unexpected error"@,
        ),
        StageView::Say(
            "\nCluster destroy complete. DNS and ELBs associated with "@ + cluster_id
                + " may still be up"@,
        ),
        ask_view(
            "Do you want to move on to destroying DNS and ELBs?"@,
            Refusal::Stop,
            Seq::<char>::empty(),
        ),
    ]
}

/// The stages that tear the cluster `cluster_id` down and, if the
/// operator wants it so, its routes after it.
pub open spec fn destroy_stages(
    terraforming_path: Seq<char>,
    infra_profile: Seq<char>,
    v1_profile: Seq<char>,
    cluster_id: Seq<char>,
) -> Seq<StageView> {
    teardown_stages(terraforming_path, infra_profile, cluster_id) + ingress_stages(
        terraforming_path,
        v1_profile,
        cluster_id,
    )
}

fn teardown(conf: &Config, cluster_id: &str) -> (stages: Vec<Stage>)
    ensures
        stage_views(stages@) == teardown_stages(
            conf.terraforming_path@,
            conf.infra_profile@,
            cluster_id@,
        ),
{
    let path = join_path(conf.terraforming_path.as_str(), "projects/kubernetes-tectonic");
    let dir = path.as_str();
    let profile = conf.infra_profile.as_str();
    let select = String::from_str("Command: terraform workspace select ").concat(cluster_id);
    let plan = String::from_str("Command: terraform plan -out tfplan.out -var-file ").concat(
        cluster_id,
    ).concat(".tfvars -destroy -detailed-exitcode");
    let complete = String::from_str(
        "\nCluster destroy complete. DNS and ELBs associated with ",
    ).concat(cluster_id).concat(" may still be up");
    let states = vec![BOOTKUBE_STATE, TECTONIC_STATE, BOOTSTRAP_STATE];
    assert(strs(states@) == seq![BOOTKUBE_STATE@, TECTONIC_STATE@, BOOTSTRAP_STATE@]);
    proof {
        reveal_strlit("");
        assert(""@ == Seq::<char>::empty());
    }

    let stages = vec![
        say(
            "\nWe will now prepare a -destroy plan against terraforming/projects/kubernetes-tectonic",
        ),
        say("First, we must select the right workspace"),
        say(path_line(dir).as_str()),
        say(select.as_str()),
        direct(
            "Execute command?",
            Labels::YesNo,
            workspace_select(dir, cluster_id, profile),
            StatusRule::Success,
            Refusal::Stop,
            "terraform workspace select",
        ),
        say("\nNext, we can optionally remove state that sometimes causes problems"),
        say(path_line(dir).as_str()),
        say(STATE_RM_LINE),
        direct(
            "Execute command or skip?",
            Labels::ExecuteSkip,
            state_rm(dir, states.as_slice(), profile),
            StatusRule::Success,
            Refusal::Skip,
            "error: terraform state rm",
        ),
        say("\nNext, we actually plan"),
        say(path_line(dir).as_str()),
        say(plan.as_str()),
        direct(
            "Execute command?",
            Labels::YesNo,
            plan_destroy_with_tfvars_file(dir, cluster_id, profile),
            StatusRule::NotOne,
            Refusal::Stop,
            PLAN_FAILURE,
        ),
        say("The plan we just ran should show approximately 120 resources to delete."),
        say(WORKSPACE_CAVEAT),
        say(path_line(dir).as_str()),
        say("Command: terraform workspace show"),
        direct(
            "Execute_command?",
            Labels::YesNo,
            workspace_show(dir, profile),
            StatusRule::Success,
            Refusal::Stop,
            "terraform workspace show",
        ),
        ask("\nAre we on the right workspace?", Refusal::Fail, "wrong workspace"),
        say("\nWe are ready to destroy the cluster. THERE IS NO GOING BACK"),
        say(path_line(dir).as_str()),
        say("Command: terraform apply tfplan.out"),
        direct(
            "Execute command?",
            Labels::YesNo,
            apply(dir, profile),
            StatusRule::Tolerated,
            Refusal::Stop,
            "\nterraform apply encountered an error, but this is expected.",
        ),
        say("We will now create another -destroy plan to ensure all resources are cleaned up"),
        say("This plan should show no diff"),
        say(path_line(dir).as_str()),
        say(plan.as_str()),
        direct(
            "Execute command?",
            Labels::YesNo,
            plan_destroy_with_tfvars_file(dir, cluster_id, profile),
            StatusRule::NotOne,
            Refusal::Stop,
            "unexpected error",
        ),
        say(complete.as_str()),
        ask("Do you want to move on to destroying DNS and ELBs?", Refusal::Stop, ""),
    ];
    assert(stage_views(stages@) == teardown_stages(
        conf.terraforming_path@,
        conf.infra_profile@,
        cluster_id@,
    ));
    stages
}

/// The runbook that tears the cluster `cluster_id` down. It ends where
/// the operator says "no"; a "yes" to its last question leads on into the
/// removal of the cluster's routes.
pub fn destroy_cluster(conf: &Config, cluster_id: &str) -> (stages: Vec<Stage>)
    ensures
        stage_views(stages@) == destroy_stages(
            conf.terraforming_path@,
            conf.infra_profile@,
            conf.v1_profile@,
            cluster_id@,
        ),
{
    let mut stages = teardown(conf, cluster_id);
    let mut routes = destroy_kubernetes_ingress(conf, cluster_id);
    let ghost first = stages@;
    let ghost second = routes@;
    stages.append(&mut routes);
    assert(stage_views(first + second) == stage_views(first) + stage_views(second));
    stages
}

} // verus!
