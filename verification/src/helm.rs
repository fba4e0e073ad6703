//! The package templater's command lines.

use vstd::prelude::*;
use vstd::string::*;
use crate::runner::{plain_cmd, strs, Cmd};

verus! {

/// The file that receives the rendered manifests of the GitOps server.
pub const ARGO_TEMPLATE: &'static str = "/tmp/argo_template.yaml";

/// The command that brings the dependencies of the chart at `chart_path` up to date.
pub fn dep_update(chart_path: &str) -> (c: Cmd)
    ensures
        c@ == plain_cmd(seq!["helm"@, "dep"@, "update"@, chart_path@]),
{
    let argv = vec!["helm", "dep", "update", chart_path];
    assert(strs(argv@) == seq!["helm"@, "dep"@, "update"@, chart_path@]);
    Cmd::new(argv)
}

/// The command that renders the chart at `chart_path` with the values of
/// `values_file`; what it prints is kept in the template file.
pub fn template_argocd(chart_path: &str, values_file: &str) -> (c: Cmd)
    ensures
        c@ == plain_cmd(seq!["helm"@, "template"@, "-f"@, values_file@, chart_path@]).with_capture(
            ARGO_TEMPLATE@,
        ),
{
    let argv = vec!["helm", "template", "-f", values_file, chart_path];
    assert(strs(argv@) == seq!["helm"@, "template"@, "-f"@, values_file@, chart_path@]);
    let mut c = Cmd::new(argv);
    c.writes_file(String::from_str(ARGO_TEMPLATE));
    c
}

} // verus!
