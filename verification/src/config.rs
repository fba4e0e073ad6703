//! Where the tools' projects and secrets lie, and under which profiles
//! the cloud is spoken to.

use vstd::prelude::*;

verus! {

/// The settings that every runbook is built from.
#[derive(Debug)]
pub struct Config {
    pub terraforming_path: String,
    pub kubernetes_deployments_path: String,
    pub keybase_secure_manifests_path: String,
    pub kubernetes_deployments_revision: String,
    pub kubernetes_deployments_ssh_key: String,
    pub infra_profile: String,
    pub v1_profile: String,
    pub assets_cache_path: String,
}

} // verus!
