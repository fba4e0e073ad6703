//! The runbook that prepares a cluster's namespaces: the namespace of its
//! workloads, the secrets and the config maps.

use vstd::prelude::*;
use vstd::string::*;
use crate::cluster::{default_namespace, join_path, joined, namespace_for};
use crate::config::Config;
use crate::kubectl::{from_literal, with_kubeconfig};
use crate::runbook::{run, run_view, stage_views, Stage, StageView};
use crate::runner::{plain_cmd, strs, CmdView, Expect, ExpectView};

verus! {

/// The command that creates, in `ns`, all that the manifests under `dir` describe.
pub open spec fn create_under(ns: Seq<char>, dir: Seq<char>, kubeconfig: Seq<char>) -> CmdView {
    plain_cmd(seq!["kubectl"@, "create"@, "-n"@, ns, "-Rf"@, dir]).with_env(
        "KUBECONFIG"@,
        kubeconfig,
    )
}

/// The command that records, in `ns`, which cluster this is.
pub open spec fn cluster_info(ns: Seq<char>, cluster_id: Seq<char>, kubeconfig: Seq<char>) -> CmdView {
    plain_cmd(
        seq![
            "kubectl"@,
            "create"@,
            "configmap"@,
            "cluster-info"@,
            from_literal("cluster-name"@, cluster_id),
            "-n"@,
            ns,
        ],
    ).with_env("KUBECONFIG"@, kubeconfig)
}

/// The stages that prepare the namespaces of the cluster `cluster_id`,
/// whose workloads live in `ns`, from the manifests under `manifests`.
/// Creating the secrets of `ns` is expected to fail.
pub open spec fn namespace_stages(
    manifests: Seq<char>,
    cluster_id: Seq<char>,
    ns: Seq<char>,
    kubeconfig: Seq<char>,
) -> Seq<StageView> {
    seq![
        run_view(
            "Execute?"@,
            plain_cmd(seq!["kubectl"@, "create"@, "ns"@, ns]).with_env("KUBECONFIG"@, kubeconfig),
            ExpectView::Success,
        ),
        run_view(
            "Deploy shared secrets?"@,
            create_under("kube-system"@, joined(manifests, "secrets/shared"@), kubeconfig),
            ExpectView::Success,
        ),
        run_view(
            "Deploy default namespace secrets? NOTE: An error is expected"@,
            create_under(ns, joined(manifests, "secrets/"@ + ns), kubeconfig),
            ExpectView::Failure,
        ),
        run_view(
            "Deploy default namespace config maps?"@,
            create_under(ns, joined(manifests, "configMaps/"@ + ns), kubeconfig),
            ExpectView::Success,
        ),
        run_view(
            "Create cluster-info config map in kube-system namespace?"@,
            cluster_info("kube-system"@, cluster_id, kubeconfig),
            ExpectView::Success,
        ),
        run_view(
            "Create cluster-info config map in default namespace?"@,
            cluster_info(ns, cluster_id, kubeconfig),
            ExpectView::Success,
        ),
    ]
}

/// The runbook that prepares the namespaces of the cluster `cluster_id`.
/// Every command is told through `KUBECONFIG` to use the credentials in
/// the file `kubeconfig`.
pub fn namespace_init(conf: &Config, cluster_id: &str, kubeconfig: &str) -> (stages: Vec<Stage>)
    requires
        namespace_for(cluster_id@) is Some,
    ensures
        stage_views(stages@) == namespace_stages(
            conf.keybase_secure_manifests_path@,
            cluster_id@,
            namespace_for(cluster_id@)->0,
            kubeconfig@,
        ),
{
    let ns = default_namespace(cluster_id);
    let manifests = conf.keybase_secure_manifests_path.as_str();
    let shared = join_path(manifests, "secrets/shared");
    let secrets = join_path(manifests, String::from_str("secrets/").concat(ns).as_str());
    let config_maps = join_path(manifests, String::from_str("configMaps/").concat(ns).as_str());
    let literal = String::from_str("--from-literal=").concat("cluster-name").concat("=").concat(
        cluster_id,
    );

    let argv = vec!["kubectl", "create", "ns", ns];
    assert(strs(argv@) == seq!["kubectl"@, "create"@, "ns"@, ns@]);
    let create_ns = with_kubeconfig(argv, kubeconfig);

    let argv = vec!["kubectl", "create", "-n", "kube-system", "-Rf", shared.as_str()];
    assert(strs(argv@) == seq!["kubectl"@, "create"@, "-n"@, "kube-system"@, "-Rf"@, shared@]);
    let shared_secrets = with_kubeconfig(argv, kubeconfig);

    let argv = vec!["kubectl", "create", "-n", ns, "-Rf", secrets.as_str()];
    assert(strs(argv@) == seq!["kubectl"@, "create"@, "-n"@, ns@, "-Rf"@, secrets@]);
    let ns_secrets = with_kubeconfig(argv, kubeconfig);

    let argv = vec!["kubectl", "create", "-n", ns, "-Rf", config_maps.as_str()];
    assert(strs(argv@) == seq!["kubectl"@, "create"@, "-n"@, ns@, "-Rf"@, config_maps@]);
    let ns_config_maps = with_kubeconfig(argv, kubeconfig);

    let argv = vec![
        "kubectl",
        "create",
        "configmap",
        "cluster-info",
        literal.as_str(),
        "-n",
        "kube-system",
    ];
    assert(strs(argv@) == seq![
        "kubectl"@,
        "create"@,
        "configmap"@,
        "cluster-info"@,
        from_literal("cluster-name"@, cluster_id@),
        "-n"@,
        "kube-system"@,
    ]);
    let system_info = with_kubeconfig(argv, kubeconfig);

    let argv = vec!["kubectl", "create", "configmap", "cluster-info", literal.as_str(), "-n", ns];
    assert(strs(argv@) == seq![
        "kubectl"@,
        "create"@,
        "configmap"@,
        "cluster-info"@,
        from_literal("cluster-name"@, cluster_id@),
        "-n"@,
        ns@,
    ]);
    let ns_info = with_kubeconfig(argv, kubeconfig);

    let stages = vec![
        run("Execute?", create_ns, Expect::Success),
        run("Deploy shared secrets?", shared_secrets, Expect::Success),
        run(
            "Deploy default namespace secrets? NOTE: An error is expected",
            ns_secrets,
            Expect::Failure,
        ),
        run("Deploy default namespace config maps?", ns_config_maps, Expect::Success),
        run(
            "Create cluster-info config map in kube-system namespace?",
            system_info,
            Expect::Success,
        ),
        run("Create cluster-info config map in default namespace?", ns_info, Expect::Success),
    ];
    assert(stage_views(stages@) == namespace_stages(
        conf.keybase_secure_manifests_path@,
        cluster_id@,
        ns@,
        kubeconfig@,
    ));
    stages
}

} // verus!
