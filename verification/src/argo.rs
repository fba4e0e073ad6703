//! The runbook that installs the GitOps server on a cluster and hands
//! the cluster's services over to it. It comes in parts, because what
//! the later parts run depends on what is found out in between.

use vstd::prelude::*;
use vstd::string::*;
use crate::cluster::{default_namespace, namespace_for};
use crate::config::Config;
use crate::heapster::{heapster_app_template, heapster_manifest};
use crate::helm::ARGO_TEMPLATE;
use crate::kubectl::with_kubeconfig;
use crate::runbook::{ask, ask_view, document, pause, run, run_view, say, stage_views, write_view};
use crate::runbook::{Refusal, Stage, StageView};
use crate::runner::{plain_cmd, strs, CmdView, Expect, ExpectView};
use crate::text::{trim, trimmed};

verus! {

/// The repository that holds the deployments.
pub const DEPLOYMENTS_REPO: &'static str = "git@github.com:paperlesspost/kubernetes-deployments";

/// The file that receives the manifest of the metrics collector.
pub const HEAPSTER_MANIFEST: &'static str = "/tmp/pp-heapster.yaml";

/// What the editor shows when it asks for the secret.
pub const SECRET_REQUEST: &'static str =
    "Enter 1P entry 'ArgoCD Beta Github App' (or equivalent) on exactly one line";

/// The patch of the server's secret, up to the secret itself.
pub const SECRET_PATCH_HEAD: &'static str = "{ \"data\": { \"dex.github.clientSecret\": \"";

/// The patch of the server's secret, after the secret.
pub const SECRET_PATCH_TAIL: &'static str = "\"}}";

/// The patch of the server's config map, up to the namespace of the chart museum.
pub const MUSEUM_PATCH_HEAD: &'static str =
    "{ \"data\": { \"helm.repositories\": \"- name: paperless\\n  type: helm\\n  url: http://chartmuseum.";

/// The patch of the server's config map, after the namespace.
pub const MUSEUM_PATCH_TAIL: &'static str = "\\n\"}}";

/// A command as the cluster `kubeconfig` describes sees it.
pub open spec fn on_cluster(argv: Seq<Seq<char>>, kubeconfig: Seq<char>) -> CmdView {
    plain_cmd(argv).with_env("KUBECONFIG"@, kubeconfig)
}

/// The file with the values of the server's chart for the namespace `ns`.
pub open spec fn values_file(ns: Seq<char>) -> Seq<char> {
    "charts/pp-argo-cd/values-"@ + ns + ".yaml"@
}

/// The stages that deploy the server: its namespace, its chart rendered
/// into a file, the file applied, and a wait for the load balancer.
pub open spec fn deploy_stages(deployments: Seq<char>, ns: Seq<char>, kubeconfig: Seq<char>) -> Seq<
    StageView,
> {
    seq![
        run_view(
            "Execute?"@,
            on_cluster(seq!["kubectl"@, "create"@, "ns"@, "argocd"@], kubeconfig),
            ExpectView::Success,
        ),
        run_view(
            "Execute?"@,
            on_cluster(seq!["helm"@, "dep"@, "update"@, "charts/pp-argo-cd"@], kubeconfig).with_dir(
                deployments,
            ),
            ExpectView::Success,
        ),
        run_view(
            "Template pp-argo-cd chart? File will be written to /tmp/argo_template.yaml"@,
            on_cluster(
                seq![
                    "helm"@,
                    "template"@,
                    "-n"@,
                    "argocd"@,
                    "-f"@,
                    values_file(ns),
                    "charts/pp-argo-cd"@,
                ],
                kubeconfig,
            ).with_dir(deployments).with_capture(ARGO_TEMPLATE@),
            ExpectView::Success,
        ),
        StageView::Say(
            "Note: the warning \"destination for dexConfig is a table\" can be ignored"@,
        ),
        run_view(
            "Deploy argocd?"@,
            on_cluster(
                seq!["kubectl"@, "apply"@, "-n"@, "argocd"@, "-f"@, ARGO_TEMPLATE@],
                kubeconfig,
            ),
            ExpectView::Success,
        ),
        StageView::Pause("Wait for a couple of minutes while the ELB comes up"@),
    ]
}

/// The first part: the server is deployed.
pub fn argo_init_deploy(conf: &Config, cluster_id: &str, kubeconfig: &str) -> (stages: Vec<Stage>)
    requires
        namespace_for(cluster_id@) is Some,
    ensures
        stage_views(stages@) == deploy_stages(
            conf.kubernetes_deployments_path@,
            namespace_for(cluster_id@)->0,
            kubeconfig@,
        ),
{
    let ns = default_namespace(cluster_id);
    let deployments = conf.kubernetes_deployments_path.as_str();
    let values = String::from_str("charts/pp-argo-cd/values-").concat(ns).concat(".yaml");

    let argv = vec!["kubectl", "create", "ns", "argocd"];
    assert(strs(argv@) == seq!["kubectl"@, "create"@, "ns"@, "argocd"@]);
    let create_ns = with_kubeconfig(argv, kubeconfig);

    let argv = vec!["helm", "dep", "update", "charts/pp-argo-cd"];
    assert(strs(argv@) == seq!["helm"@, "dep"@, "update"@, "charts/pp-argo-cd"@]);
    let mut update = with_kubeconfig(argv, kubeconfig);
    update.dir(String::from_str(deployments));

    let argv = vec![
        "helm",
        "template",
        "-n",
        "argocd",
        "-f",
        values.as_str(),
        "charts/pp-argo-cd",
    ];
    assert(strs(argv@) == seq![
        "helm"@,
        "template"@,
        "-n"@,
        "argocd"@,
        "-f"@,
        values_file(ns@),
        "charts/pp-argo-cd"@,
    ]);
    let mut template = with_kubeconfig(argv, kubeconfig);
    template.dir(String::from_str(deployments));
    template.writes_file(String::from_str(ARGO_TEMPLATE));

    let argv = vec!["kubectl", "apply", "-n", "argocd", "-f", ARGO_TEMPLATE];
    assert(strs(argv@) == seq!["kubectl"@, "apply"@, "-n"@, "argocd"@, "-f"@, ARGO_TEMPLATE@]);
    let apply = with_kubeconfig(argv, kubeconfig);

    let stages = vec![
        run("Execute?", create_ns, Expect::Success),
        run("Execute?", update, Expect::Success),
        run(
            "Template pp-argo-cd chart? File will be written to /tmp/argo_template.yaml",
            template,
            Expect::Success,
        ),
        say("Note: the warning \"destination for dexConfig is a table\" can be ignored"),
        run("Deploy argocd?", apply, Expect::Success),
        pause("Wait for a couple of minutes while the ELB comes up"),
    ];
    assert(stage_views(stages@) == deploy_stages(conf.kubernetes_deployments_path@, ns@, kubeconfig@));
    stages
}

/// The stages that log in to the server at `elb`, with the name of its
/// pod as the password, register the deployments with the key at
/// `ssh_key`, and ask whether the secret is to be entered now.
pub open spec fn login_stages(
    ssh_key: Seq<char>,
    server: Seq<char>,
    elb: Seq<char>,
    kubeconfig: Seq<char>,
) -> Seq<StageView> {
    seq![
        StageView::Say("\nDiscovered argocd-server pod: "@ + server),
        StageView::Say("\nDiscovered argocd-server elb: "@ + elb),
        StageView::Say("\nSkipping creation of DNS records for argocd or argocd-beta subdomain"@),
        StageView::Say("https://github.com/paperlesspost/terraforming/pull/891"@),
        run_view(
            "Log in to argo?"@,
            on_cluster(
                seq![
                    "argocd"@,
                    "login"@,
                    elb,
                    "--username"@,
                    "admin"@,
                    "--password"@,
                    server,
                ],
                kubeconfig,
            ),
            ExpectView::Success,
        ),
        run_view(
            "Add git repo and private key?"@,
            on_cluster(
                seq![
                    "argocd"@,
                    "repo"@,
                    "add"@,
                    DEPLOYMENTS_REPO@,
                    "--ssh-private-key-path"@,
                    ssh_key,
                ],
                kubeconfig,
            ),
            ExpectView::Success,
        ),
        StageView::Say("\nThe argocd-secret must be patched with a value from 1Password"@),
        StageView::Say("We will open a buffer in you editor and you will write this secret"@),
        StageView::Say("to the first line. Do not write more than one line."@),
        ask_view(
            "Open buffer in your $EDITOR to input the secret?"@,
            Refusal::Stop,
            Seq::<char>::empty(),
        ),
    ]
}

/// The second part: the operator logs in to the server that was found
/// at `elb`, whose pod is `server`. It ends on the question whether the
/// secret is to be entered: completed on "yes", stopped on "no".
pub fn argo_init_login(conf: &Config, server: &str, elb: &str, kubeconfig: &str) -> (stages: Vec<
    Stage,
>)
    ensures
        stage_views(stages@) == login_stages(
            conf.kubernetes_deployments_ssh_key@,
            server@,
            elb@,
            kubeconfig@,
        ),
{
    let argv = vec!["argocd", "login", elb, "--username", "admin", "--password", server];
    assert(strs(argv@) == seq![
        "argocd"@,
        "login"@,
        elb@,
        "--username"@,
        "admin"@,
        "--password"@,
        server@,
    ]);
    let login = with_kubeconfig(argv, kubeconfig);

    let argv = vec![
        "argocd",
        "repo",
        "add",
        DEPLOYMENTS_REPO,
        "--ssh-private-key-path",
        conf.kubernetes_deployments_ssh_key.as_str(),
    ];
    assert(strs(argv@) == seq![
        "argocd"@,
        "repo"@,
        "add"@,
        DEPLOYMENTS_REPO@,
        "--ssh-private-key-path"@,
        conf.kubernetes_deployments_ssh_key@,
    ]);
    let add_repo = with_kubeconfig(argv, kubeconfig);

    let found_pod = String::from_str("\nDiscovered argocd-server pod: ").concat(server);
    let found_elb = String::from_str("\nDiscovered argocd-server elb: ").concat(elb);
    proof {
        reveal_strlit("");
        assert(""@ == Seq::<char>::empty());
    }
    let stages = vec![
        say(found_pod.as_str()),
        say(found_elb.as_str()),
        say("\nSkipping creation of DNS records for argocd or argocd-beta subdomain"),
        say("https://github.com/paperlesspost/terraforming/pull/891"),
        run("Log in to argo?", login, Expect::Success),
        run("Add git repo and private key?", add_repo, Expect::Success),
        say("\nThe argocd-secret must be patched with a value from 1Password"),
        say("We will open a buffer in you editor and you will write this secret"),
        say("to the first line. Do not write more than one line."),
        ask("Open buffer in your $EDITOR to input the secret?", Refusal::Stop, ""),
    ];
    assert(stage_views(stages@) == login_stages(
        conf.kubernetes_deployments_ssh_key@,
        server@,
        elb@,
        kubeconfig@,
    ));
    stages
}

/// The patch that puts `secret` into the server's secret.
pub open spec fn secret_patch_text(secret: Seq<char>) -> Seq<char> {
    SECRET_PATCH_HEAD@ + secret + SECRET_PATCH_TAIL@
}

/// The patch that puts `secret`, as it stands, into the server's secret.
pub fn secret_patch(secret: &str) -> (patch: String)
    ensures
        patch@ == secret_patch_text(secret@),
{
    String::from_str(SECRET_PATCH_HEAD).concat(secret).concat(SECRET_PATCH_TAIL)
}

/// The stages that follow the editor: the secret patched in where one
/// was entered, else a word of farewell and the end of the program.
pub open spec fn patch_stages(secret: Option<Seq<char>>, kubeconfig: Seq<char>) -> Seq<StageView> {
    match secret {
        Some(text) => seq![
            run_view(
                "Patch argocd-secret?"@,
                on_cluster(
                    seq![
                        "kubectl"@,
                        "patch"@,
                        "secret"@,
                        "argocd-secret"@,
                        "-n"@,
                        "argocd"@,
                        "--patch"@,
                        secret_patch_text(text),
                    ],
                    kubeconfig,
                ),
                ExpectView::Success,
            ),
        ],
        None => seq![StageView::Say("You must enter a dex secret. Exiting."@), StageView::Halt],
    }
}

/// The stages that follow the editor, for the secret `secret` as it is
/// to be patched in, or for none.
pub fn patch_with(secret: Option<&str>, kubeconfig: &str) -> (stages: Vec<Stage>)
    ensures
        stage_views(stages@) == patch_stages(
            match secret {
                Some(text) => Some(text@),
                None => None,
            },
            kubeconfig@,
        ),
{
    match secret {
        Some(text) => {
            let patch = secret_patch(text);
            let argv = vec![
                "kubectl",
                "patch",
                "secret",
                "argocd-secret",
                "-n",
                "argocd",
                "--patch",
                patch.as_str(),
            ];
            assert(strs(argv@) == seq![
                "kubectl"@,
                "patch"@,
                "secret"@,
                "argocd-secret"@,
                "-n"@,
                "argocd"@,
                "--patch"@,
                secret_patch_text(text@),
            ]);
            let stages = vec![
                run("Patch argocd-secret?", with_kubeconfig(argv, kubeconfig), Expect::Success),
            ];
            assert(stage_views(stages@) == patch_stages(Some(text@), kubeconfig@));
            stages
        },
        None => {
            let stages = vec![say("You must enter a dex secret. Exiting."), Stage::Halt];
            assert(stage_views(stages@) == patch_stages(None, kubeconfig@));
            stages
        },
    }
}

/// The third part: what the operator left in the editor, without the
/// white space around it, is patched into the server's secret. Where
/// the editor was left without saving, the program ends.
pub fn argo_init_patch(edited: Option<&str>, kubeconfig: &str) -> (stages: Vec<Stage>)
    ensures
        stage_views(stages@) == patch_stages(
            match edited {
                Some(text) => Some(trimmed(text@)),
                None => None,
            },
            kubeconfig@,
        ),
{
    match edited {
        Some(text) => {
            let secret = trim(text);
            patch_with(Some(secret.as_str()), kubeconfig)
        },
        None => patch_with(None, kubeconfig),
    }
}

/// The manifest of one of the bootstrap applications of the namespace `ns`.
pub open spec fn bootstrap_manifest(ns: Seq<char>, file: Seq<char>) -> Seq<char> {
    "bootstrap/"@ + ns + "/"@ + file
}

/// The patch that tells the server where the chart museum of `ns` is.
pub open spec fn museum_patch_text(ns: Seq<char>) -> Seq<char> {
    MUSEUM_PATCH_HEAD@ + ns + MUSEUM_PATCH_TAIL@
}

/// The stages that hand the cluster's services over to the server: the
/// bootstrap project, the cluster's services, the chart museum, the
/// metrics collector, and at last the applications themselves.
pub open spec fn bootstrap_stages(
    deployments: Seq<char>,
    cluster_id: Seq<char>,
    ns: Seq<char>,
    kubeconfig: Seq<char>,
) -> Seq<StageView> {
    seq![
        run_view(
            "Create argocd bootstrap project?"@,
            on_cluster(
                seq![
                    "argocd"@,
                    "proj"@,
                    "create"@,
                    "bootstrap"@,
                    "-d"@,
                    "*,*"@,
                    "-s"@,
                    "*"@,
                ],
                kubeconfig,
            ),
            ExpectView::Success,
        ),
        StageView::Pause("Wait a few seconds and let the bootstrap project initialize"@),
        run_view(
            "Let bootstrap project manage any k8s resource?"@,
            on_cluster(
                seq!["argocd"@, "proj"@, "allow-cluster-resource"@, "bootstrap"@, "*"@, "*"@],
                kubeconfig,
            ),
            ExpectView::Success,
        ),
        run_view(
            "Create bootstrap Application CRD for cluster services (this will launch a bunch of pods)?"@,
            on_cluster(
                seq![
                    "argocd"@,
                    "app"@,
                    "create"@,
                    "-f"@,
                    bootstrap_manifest(ns, "cluster.yaml"@),
                ],
                kubeconfig,
            ).with_dir(deployments),
            ExpectView::Success,
        ),
        StageView::Pause("Wait for a minute for chartmuseum to come online"@),
        run_view(
            "Patch argocd-cm configmap with our cluster's chartmuseum url?"@,
            on_cluster(
                seq![
                    "kubectl"@,
                    "patch"@,
                    "configmap"@,
                    "argocd-cm"@,
                    "-n"@,
                    "argocd"@,
                    "--patch"@,
                    museum_patch_text(ns),
                ],
                kubeconfig,
            ),
            ExpectView::Success,
        ),
        write_view(HEAPSTER_MANIFEST@, heapster_manifest(ns, cluster_id)),
        StageView::Say(
            "\nAn Application CRD template has been written to /tmp/pp-heapster.yaml"@,
        ),
        run_view(
            "Deploy heapster?"@,
            on_cluster(seq!["argocd"@, "app"@, "create"@, "-f"@, HEAPSTER_MANIFEST@], kubeconfig),
            ExpectView::Success,
        ),
        StageView::Say("\n We are ready to deploy paperless services"@),
        run_view(
            "Deploy pp services (this will launch all our apps)?"@,
            on_cluster(
                seq![
                    "argocd"@,
                    "app"@,
                    "create"@,
                    "-f"@,
                    bootstrap_manifest(ns, "paperless-services.yaml"@),
                ],
                kubeconfig,
            ).with_dir(deployments),
            ExpectView::Success,
        ),
        StageView::Say("\nAll services deployed."@),
    ]
}

/// The last part: the cluster's services are handed over to the server.
pub fn argo_init_bootstrap(conf: &Config, cluster_id: &str, kubeconfig: &str) -> (stages: Vec<
    Stage,
>)
    requires
        namespace_for(cluster_id@) is Some,
    ensures
        stage_views(stages@) == bootstrap_stages(
            conf.kubernetes_deployments_path@,
            cluster_id@,
            namespace_for(cluster_id@)->0,
            kubeconfig@,
        ),
{
    let ns = default_namespace(cluster_id);
    let deployments = conf.kubernetes_deployments_path.as_str();
    let services = String::from_str("bootstrap/").concat(ns).concat("/").concat("cluster.yaml");
    let applications = String::from_str("bootstrap/").concat(ns).concat("/").concat(
        "paperless-services.yaml",
    );
    let museum = String::from_str(MUSEUM_PATCH_HEAD).concat(ns).concat(MUSEUM_PATCH_TAIL);
    let manifest = heapster_app_template(ns, cluster_id);

    let argv = vec!["argocd", "proj", "create", "bootstrap", "-d", "*,*", "-s", "*"];
    assert(strs(argv@) == seq![
        "argocd"@,
        "proj"@,
        "create"@,
        "bootstrap"@,
        "-d"@,
        "*,*"@,
        "-s"@,
        "*"@,
    ]);
    let project = with_kubeconfig(argv, kubeconfig);

    let argv = vec!["argocd", "proj", "allow-cluster-resource", "bootstrap", "*", "*"];
    assert(strs(argv@) == seq![
        "argocd"@,
        "proj"@,
        "allow-cluster-resource"@,
        "bootstrap"@,
        "*"@,
        "*"@,
    ]);
    let allow = with_kubeconfig(argv, kubeconfig);

    let argv = vec!["argocd", "app", "create", "-f", services.as_str()];
    assert(strs(argv@) == seq![
        "argocd"@,
        "app"@,
        "create"@,
        "-f"@,
        bootstrap_manifest(ns@, "cluster.yaml"@),
    ]);
    let mut cluster_services = with_kubeconfig(argv, kubeconfig);
    cluster_services.dir(String::from_str(deployments));

    let argv = vec![
        "kubectl",
        "patch",
        "configmap",
        "argocd-cm",
        "-n",
        "argocd",
        "--patch",
        museum.as_str(),
    ];
    assert(strs(argv@) == seq![
        "kubectl"@,
        "patch"@,
        "configmap"@,
        "argocd-cm"@,
        "-n"@,
        "argocd"@,
        "--patch"@,
        museum_patch_text(ns@),
    ]);
    let patch = with_kubeconfig(argv, kubeconfig);

    let argv = vec!["argocd", "app", "create", "-f", HEAPSTER_MANIFEST];
    assert(strs(argv@) == seq!["argocd"@, "app"@, "create"@, "-f"@, HEAPSTER_MANIFEST@]);
    let heapster = with_kubeconfig(argv, kubeconfig);

    let argv = vec!["argocd", "app", "create", "-f", applications.as_str()];
    assert(strs(argv@) == seq![
        "argocd"@,
        "app"@,
        "create"@,
        "-f"@,
        bootstrap_manifest(ns@, "paperless-services.yaml"@),
    ]);
    let mut paperless = with_kubeconfig(argv, kubeconfig);
    paperless.dir(String::from_str(deployments));

    let stages = vec![
        run("Create argocd bootstrap project?", project, Expect::Success),
        pause("Wait a few seconds and let the bootstrap project initialize"),
        run("Let bootstrap project manage any k8s resource?", allow, Expect::Success),
        run(
            "Create bootstrap Application CRD for cluster services (this will launch a bunch of pods)?",
            cluster_services,
            Expect::Success,
        ),
        pause("Wait for a minute for chartmuseum to come online"),
        run(
            "Patch argocd-cm configmap with our cluster's chartmuseum url?",
            patch,
            Expect::Success,
        ),
        document(HEAPSTER_MANIFEST, manifest.as_str()),
        say("\nAn Application CRD template has been written to /tmp/pp-heapster.yaml"),
        run("Deploy heapster?", heapster, Expect::Success),
        say("\n We are ready to deploy paperless services"),
        run("Deploy pp services (this will launch all our apps)?", paperless, Expect::Success),
        say("\nAll services deployed."),
    ];
    assert(stage_views(stages@) == bootstrap_stages(
        conf.kubernetes_deployments_path@,
        cluster_id@,
        ns@,
        kubeconfig@,
    ));
    stages
}

} // verus!
