//! The application manifest of the metrics collector.

use vstd::prelude::*;
use vstd::string::*;

verus! {

/// The manifest up to the name of the application.
pub const TEMPLATE_HEAD: &'static str =
    "\n---\napiVersion: argoproj.io/v1alpha1\nkind: Application\nmetadata:\n  name: pp-heapster-";

/// The manifest between the name and the namespace of the destination.
pub const TEMPLATE_DESTINATION: &'static str = "\nspec:\n  destination:\n    namespace: ";

/// The manifest between the namespace and the name of the cluster's values file.
pub const TEMPLATE_SOURCE: &'static str =
    "\n    server: https://kubernetes.default.svc\n  ignoreDifferences:\n    - group: extensions\n      kind: Deployment\n      jsonPointers:\n      - /spec/template/spec/containers/0/resources\n  project: default\n  source:\n    helm:\n      valueFiles:\n      - values.yaml\n      - values-";

/// The manifest after the name of the cluster's values file.
pub const TEMPLATE_TAIL: &'static str =
    ".yaml\n    path: charts/pp-heapster\n    repoURL: git@github.com:paperlesspost/kubernetes-deployments\n    targetRevision: HEAD\n  syncPolicy:\n    automated: {}\n\n";

/// The manifest for namespace `ns` and cluster `cluster_id`, as text.
pub open spec fn heapster_manifest(ns: Seq<char>, cluster_id: Seq<char>) -> Seq<char> {
    TEMPLATE_HEAD@ + ns + TEMPLATE_DESTINATION@ + ns + TEMPLATE_SOURCE@ + cluster_id
        + TEMPLATE_TAIL@
}

/// The manifest of the metrics collector's application: named after the
/// namespace `ns`, deployed into it, with the values of cluster `cluster_id`.
pub fn heapster_app_template(ns: &str, cluster_id: &str) -> (manifest: String)
    ensures
        manifest@ == heapster_manifest(ns@, cluster_id@),
{
    String::from_str(TEMPLATE_HEAD).concat(ns).concat(TEMPLATE_DESTINATION).concat(ns).concat(
        TEMPLATE_SOURCE,
    ).concat(cluster_id).concat(TEMPLATE_TAIL)
}

} // verus!
