//! The cluster tool's command lines.

use vstd::prelude::*;
use vstd::string::*;
use crate::runner::{plain_cmd, strs, Cmd};

verus! {

/// The command that names the pod of the GitOps server.
pub fn get_argo_server_name() -> (c: Cmd)
    ensures
        c@ == plain_cmd(
            seq![
                "kubectl"@,
                "get"@,
                "pod"@,
                "-n"@,
                "argocd"@,
                "-l"@,
                "app.kubernetes.io/component=server"@,
                "-o"@,
                "custom-columns=XYZ:.metadata.name"@,
                "--no-headers"@,
            ],
        ),
{
    let argv = vec![
        "kubectl",
        "get",
        "pod",
        "-n",
        "argocd",
        "-l",
        "app.kubernetes.io/component=server",
        "-o",
        "custom-columns=XYZ:.metadata.name",
        "--no-headers",
    ];
    assert(strs(argv@) == seq![
        "kubectl"@,
        "get"@,
        "pod"@,
        "-n"@,
        "argocd"@,
        "-l"@,
        "app.kubernetes.io/component=server"@,
        "-o"@,
        "custom-columns=XYZ:.metadata.name"@,
        "--no-headers"@,
    ]);
    Cmd::new(argv)
}

/// The command that names the load balancer of the GitOps server.
pub fn get_argo_elb() -> (c: Cmd)
    ensures
        c@ == plain_cmd(
            seq![
                "kubectl"@,
                "get"@,
                "svc"@,
                "-n"@,
                "argocd"@,
                "argocd-server"@,
                "-o"@,
                "custom-columns=XYZ:.status.loadBalancer.ingress[0].hostname"@,
                "--no-headers"@,
            ],
        ),
{
    let argv = vec![
        "kubectl",
        "get",
        "svc",
        "-n",
        "argocd",
        "argocd-server",
        "-o",
        "custom-columns=XYZ:.status.loadBalancer.ingress[0].hostname",
        "--no-headers",
    ];
    assert(strs(argv@) == seq![
        "kubectl"@,
        "get"@,
        "svc"@,
        "-n"@,
        "argocd"@,
        "argocd-server"@,
        "-o"@,
        "custom-columns=XYZ:.status.loadBalancer.ingress[0].hostname"@,
        "--no-headers"@,
    ]);
    Cmd::new(argv)
}

/// The command `argv`, told through `KUBECONFIG` which cluster it talks to.
pub fn with_kubeconfig(argv: Vec<&str>, kubeconfig: &str) -> (c: Cmd)
    ensures
        c@ == plain_cmd(strs(argv@)).with_env("KUBECONFIG"@, kubeconfig@),
{
    let mut c = Cmd::new(argv);
    c.env("KUBECONFIG", kubeconfig);
    c
}

/// The cluster tool, bound to the file that says which cluster it talks to.
pub struct Kubectl {
    kubeconfig_path: String,
}

/// The argument that gives a config map one literal entry.
pub open spec fn from_literal(key: Seq<char>, value: Seq<char>) -> Seq<char> {
    "--from-literal="@ + key + "="@ + value
}

impl Kubectl {
    /// The path of the file that the tool is bound to.
    pub closed spec fn path(&self) -> Seq<char> {
        self.kubeconfig_path@
    }

    /// The tool, bound to the cluster that the file at `p` describes.
    pub fn new(p: &str) -> (k: Kubectl)
        ensures
            k.path() == p@,
    {
        Kubectl { kubeconfig_path: String::from_str(p) }
    }

    /// The command that applies the manifest at `manifest`. The namespace
    /// is taken but has no part in the command.
    pub fn apply(&self, ns: &str, manifest: &str) -> (c: Cmd)
        ensures
            c@ == plain_cmd(seq!["kubectl"@, "apply"@, "-f"@, manifest@]).with_env(
                "KUBECONFIG"@,
                self.path(),
            ),
    {
        let argv = vec!["kubectl", "apply", "-f", manifest];
        assert(strs(argv@) == seq!["kubectl"@, "apply"@, "-f"@, manifest@]);
        let mut c = Cmd::new(argv);
        c.env("KUBECONFIG", self.kubeconfig_path.as_str());
        c
    }

    /// The command that creates the namespace `ns`.
    pub fn create_namespace(&self, ns: &str) -> (c: Cmd)
        ensures
            c@ == plain_cmd(seq!["kubectl"@, "create"@, "ns"@, ns@]).with_env(
                "KUBECONFIG"@,
                self.path(),
            ),
    {
        let argv = vec!["kubectl", "create", "ns", ns];
        assert(strs(argv@) == seq!["kubectl"@, "create"@, "ns"@, ns@]);
        let mut c = Cmd::new(argv);
        c.env("KUBECONFIG", self.kubeconfig_path.as_str());
        c
    }

    /// The command that creates, in `ns`, all that the manifests under
    /// `dir` describe.
    pub fn create_with_manifest_recursive(&self, ns: &str, dir: &str) -> (c: Cmd)
        ensures
            c@ == plain_cmd(seq!["kubectl"@, "create"@, "-n"@, ns@, "-Rf"@, dir@]).with_env(
                "KUBECONFIG"@,
                self.path(),
            ),
    {
        let argv = vec!["kubectl", "create", "-n", ns, "-Rf", dir];
        assert(strs(argv@) == seq!["kubectl"@, "create"@, "-n"@, ns@, "-Rf"@, dir@]);
        let mut c = Cmd::new(argv);
        c.env("KUBECONFIG", self.kubeconfig_path.as_str());
        c
    }

    /// The command that creates, in `ns`, the config map `cm` with the one
    /// entry `key`.
    pub fn create_config_map_literal(&self, ns: &str, cm: &str, key: &str, value: &str) -> (c: Cmd)
        ensures
            c@ == plain_cmd(
                seq!["kubectl"@, "create"@, "configmap"@, cm@, from_literal(key@, value@), "-n"@, ns@],
            ).with_env("KUBECONFIG"@, self.path()),
    {
        let arg = String::from_str("--from-literal=").concat(key).concat("=").concat(value);
        let argv = vec!["kubectl", "create", "configmap", cm, arg.as_str(), "-n", ns];
        assert(strs(argv@) == seq![
            "kubectl"@,
            "create"@,
            "configmap"@,
            cm@,
            from_literal(key@, value@),
            "-n"@,
            ns@,
        ]);
        let mut c = Cmd::new(argv);
        c.env("KUBECONFIG", self.kubeconfig_path.as_str());
        c
    }
}

} // verus!
