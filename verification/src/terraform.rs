//! The provisioning tool's command lines.

use vstd::prelude::*;
use vstd::string::*;
use crate::runner::{plain_cmd, strs, Cmd, CmdView};

verus! {

/// The file of variables that goes with a workspace.
pub open spec fn tfvars_file(name: Seq<char>) -> Seq<char> {
    name + ".tfvars"@
}

/// The tool's command `argv`, run in `dir` under the cloud profile `profile`.
pub open spec fn tool(argv: Seq<Seq<char>>, dir: Seq<char>, profile: Seq<char>) -> CmdView {
    plain_cmd(argv).with_env("AWS_PROFILE"@, profile).with_dir(dir)
}

/// The arguments that plan the destruction of what `tfvars` describes.
pub open spec fn plan_destroy_argv(tfvars: Seq<char>) -> Seq<Seq<char>> {
    seq![
        "terraform"@,
        "plan"@,
        "-out"@,
        "tfplan.out"@,
        "-var-file"@,
        tfvars_file(tfvars),
        "-destroy"@,
        "-detailed-exitcode"@,
    ]
}

/// The command that plans the destruction of what `tfvars` describes.
pub fn plan_destroy_with_tfvars_file(dir: &str, tfvars: &str, profile: &str) -> (c: Cmd)
    ensures
        c@ == plain_cmd(
            seq![
                "terraform"@,
                "plan"@,
                "-out"@,
                "tfplan.out"@,
                "-var-file"@,
                tfvars_file(tfvars@),
                "-destroy"@,
                "-detailed-exitcode"@,
            ],
        ).with_env("AWS_PROFILE"@, profile@).with_dir(dir@),
{
    let file = String::from_str(tfvars).concat(".tfvars");
    let argv = vec![
        "terraform",
        "plan",
        "-out",
        "tfplan.out",
        "-var-file",
        file.as_str(),
        "-destroy",
        "-detailed-exitcode",
    ];
    assert(strs(argv@) == seq![
        "terraform"@,
        "plan"@,
        "-out"@,
        "tfplan.out"@,
        "-var-file"@,
        tfvars_file(tfvars@),
        "-destroy"@,
        "-detailed-exitcode"@,
    ]);
    let mut c = Cmd::new(argv);
    c.env("AWS_PROFILE", profile);
    c.dir(String::from_str(dir));
    c
}

/// The command that plans the changes that `tfvars` asks for.
pub fn plan_with_tfvars_file(dir: &str, tfvars: &str, profile: &str) -> (c: Cmd)
    ensures
        c@ == plain_cmd(
            seq![
                "terraform"@,
                "plan"@,
                "-out"@,
                "tfplan.out"@,
                "-var-file"@,
                tfvars_file(tfvars@),
                "-detailed-exitcode"@,
            ],
        ).with_env("AWS_PROFILE"@, profile@).with_dir(dir@),
{
    let file = String::from_str(tfvars).concat(".tfvars");
    let argv = vec![
        "terraform",
        "plan",
        "-out",
        "tfplan.out",
        "-var-file",
        file.as_str(),
        "-detailed-exitcode",
    ];
    assert(strs(argv@) == seq![
        "terraform"@,
        "plan"@,
        "-out"@,
        "tfplan.out"@,
        "-var-file"@,
        tfvars_file(tfvars@),
        "-detailed-exitcode"@,
    ]);
    let mut c = Cmd::new(argv);
    c.env("AWS_PROFILE", profile);
    c.dir(String::from_str(dir));
    c
}

/// The command that applies the plan that was written last.
pub fn apply(dir: &str, profile: &str) -> (c: Cmd)
    ensures
        c@ == plain_cmd(seq!["terraform"@, "apply"@, "tfplan.out"@]).with_env(
            "AWS_PROFILE"@,
            profile@,
        ).with_dir(dir@),
{
    let argv = vec!["terraform", "apply", "tfplan.out"];
    assert(strs(argv@) == seq!["terraform"@, "apply"@, "tfplan.out"@]);
    let mut c = Cmd::new(argv);
    c.env("AWS_PROFILE", profile);
    c.dir(String::from_str(dir));
    c
}

/// The command that selects `workspace`.
pub fn workspace_select(dir: &str, workspace: &str, profile: &str) -> (c: Cmd)
    ensures
        c@ == plain_cmd(seq!["terraform"@, "workspace"@, "select"@, workspace@]).with_env(
            "AWS_PROFILE"@,
            profile@,
        ).with_dir(dir@),
{
    let argv = vec!["terraform", "workspace", "select", workspace];
    assert(strs(argv@) == seq!["terraform"@, "workspace"@, "select"@, workspace@]);
    let mut c = Cmd::new(argv);
    c.env("AWS_PROFILE", profile);
    c.dir(String::from_str(dir));
    c
}

/// The command that shows the workspace that is selected.
pub fn workspace_show(dir: &str, profile: &str) -> (c: Cmd)
    ensures
        c@ == plain_cmd(seq!["terraform"@, "workspace"@, "show"@]).with_env(
            "AWS_PROFILE"@,
            profile@,
        ).with_dir(dir@),
{
    let argv = vec!["terraform", "workspace", "show"];
    assert(strs(argv@) == seq!["terraform"@, "workspace"@, "show"@]);
    let mut c = Cmd::new(argv);
    c.env("AWS_PROFILE", profile);
    c.dir(String::from_str(dir));
    c
}

/// The command that shows the tool's version.
pub fn version(dir: &str, profile: &str) -> (c: Cmd)
    ensures
        c@ == plain_cmd(seq!["terraform"@, "version"@]).with_env("AWS_PROFILE"@, profile@).with_dir(
            dir@,
        ),
{
    let argv = vec!["terraform", "version"];
    assert(strs(argv@) == seq!["terraform"@, "version"@]);
    let mut c = Cmd::new(argv);
    c.env("AWS_PROFILE", profile);
    c.dir(String::from_str(dir));
    c
}

/// The command that removes `states` from the recorded state, in the
/// order given.
pub fn state_rm(dir: &str, states: &[&str], profile: &str) -> (c: Cmd)
    ensures
        c@ == plain_cmd(seq!["terraform"@, "state"@, "rm"@] + strs(states@)).with_env(
            "AWS_PROFILE"@,
            profile@,
        ).with_dir(dir@),
{
    let mut argv = vec!["terraform", "state", "rm"];
    let ghost head = seq!["terraform"@, "state"@, "rm"@];
    assert(strs(argv@) == head + strs(states@).take(0));
    let mut i: usize = 0;
    while i < states.len()
        invariant
            i <= states.len(),
            strs(argv@) == head + strs(states@).take(i as int),
        decreases states.len() - i,
    {
        argv.push(states[i]);
        assert(strs(argv@) == (head + strs(states@).take(i as int)).push(states@[i as int]@));
        assert(head + strs(states@).take(i + 1) == (head + strs(states@).take(i as int)).push(
            states@[i as int]@,
        ));
        i = i + 1;
    }
    assert(strs(states@).take(i as int) == strs(states@));
    let mut c = Cmd::new(argv);
    c.env("AWS_PROFILE", profile);
    c.dir(String::from_str(dir));
    c
}

/// The command that fetches the modules anew.
pub fn get_update(dir: &str) -> (c: Cmd)
    ensures
        c@ == plain_cmd(seq!["terraform"@, "get"@, "-update"@]).with_dir(dir@),
{
    let argv = vec!["terraform", "get", "-update"];
    assert(strs(argv@) == seq!["terraform"@, "get"@, "-update"@]);
    let mut c = Cmd::new(argv);
    c.dir(String::from_str(dir));
    c
}

} // verus!
