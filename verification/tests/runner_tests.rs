use clusterctl::gate::{agreed, confirmation_labels, gate_decision, mismatch_decision, mismatch_labels};
use clusterctl::gate::{GateDecision, MismatchDecision, MISMATCH_WARNING};
use clusterctl::runner::{new_env_vars, Cmd, EnvVars, ExecutionResult, Expect, RunError};
use clusterctl::step::{Step, StepOutcome};
use std::path::Path;

fn exited(code: i32) -> ExecutionResult {
    ExecutionResult { code: Some(code), output: None }
}

fn printed(code: i32, text: &str) -> ExecutionResult {
    ExecutionResult { code: Some(code), output: Some(text.as_bytes().to_vec()) }
}

fn sorted(mut pairs: Vec<(String, String)>) -> Vec<(String, String)> {
    pairs.sort();
    pairs
}

fn pair(name: &str, value: &str) -> (String, String) {
    (name.to_string(), value.to_string())
}

#[test]
fn test_cmd() {
    let p = Path::new("/usr/local/bin");
    let mut c = Cmd::new(vec!["ls", "-l", p.to_str().unwrap()]);
    let c = c.env("KEY", "VALUE");

    let e = &c.env;
    let e = e.as_ref().unwrap();
    assert_eq!(*e.get(&"KEY".to_string()).unwrap(), "VALUE".to_string(),);
}

#[test]
fn new_command_keeps_argv_and_sets_nothing_else() {
    let c = Cmd::new(vec!["ls", "-l", "/usr/local/bin"]);
    assert_eq!(c.command, vec!["ls".to_string(), "-l".to_string(), "/usr/local/bin".to_string()]);
    assert_eq!(c.working_dir, None);
    assert_eq!(c.writes_file, None);
    assert!(c.env.as_ref().unwrap().to_vec().is_empty());
}

#[test]
fn new_command_may_be_empty() {
    let c = Cmd::new(vec![]);
    assert!(c.command.is_empty());
    assert!(!c.runnable());
}

#[test]
fn env_replaces_an_earlier_value_of_the_same_name() {
    let mut c = Cmd::new(vec!["terraform", "plan"]);
    c.env("AWS_PROFILE", "default").env("TF_LOG", "debug").env("AWS_PROFILE", "infra");
    let e = c.env.as_ref().unwrap();
    assert_eq!(e.get("AWS_PROFILE").unwrap(), "infra");
    assert_eq!(e.get("TF_LOG").unwrap(), "debug");
    assert!(e.get("HOME").is_none());
    assert_eq!(
        sorted(e.to_vec()),
        vec![pair("AWS_PROFILE", "infra"), pair("TF_LOG", "debug")]
    );
}

#[test]
fn env_on_a_command_without_overlay_records_the_pair() {
    let mut c = Cmd::new(vec!["ls"]);
    c.env = None;
    c.env("KEY", "VALUE");
    assert_eq!(c.env.as_ref().unwrap().to_vec(), vec![pair("KEY", "VALUE")]);
}

#[test]
fn env_leaves_the_rest_of_the_command_alone() {
    let mut c = Cmd::new(vec!["ls", "-l"]);
    c.dir("/srv".to_string());
    c.env("KEY", "VALUE");
    assert_eq!(c.command, vec!["ls".to_string(), "-l".to_string()]);
    assert_eq!(c.working_dir, Some("/srv".to_string()));
    assert_eq!(c.writes_file, None);
}

#[test]
fn dir_and_writes_file_set_their_fields() {
    let mut c = Cmd::new(vec!["helm", "template"]);
    c.dir("/charts".to_string()).writes_file("/tmp/out.yaml".to_string());
    assert_eq!(c.working_dir, Some("/charts".to_string()));
    assert_eq!(c.writes_file, Some("/tmp/out.yaml".to_string()));
    assert_eq!(c.command, vec!["helm".to_string(), "template".to_string()]);
    assert!(c.env.as_ref().unwrap().to_vec().is_empty());
}

#[test]
fn overlay_insert_and_with_agree() {
    let mut e = new_env_vars();
    e.insert("A", "1");
    e.insert("B", "2");
    e.insert("A", "3");
    let f = EnvVars::new().with("A", "1").with("B", "2").with("A", "3");
    assert_eq!(sorted(e.to_vec()), vec![pair("A", "3"), pair("B", "2")]);
    assert_eq!(sorted(f.to_vec()), sorted(e.to_vec()));
}

#[test]
fn overlay_wins_and_the_rest_is_inherited() {
    let inherited = EnvVars::new().with("AWS_PROFILE", "default").with("HOME", "/root");
    let overlay = EnvVars::new().with("AWS_PROFILE", "infra").with("KUBECONFIG", "/k");
    let seen = overlay.onto(&inherited);
    assert_eq!(seen.get("AWS_PROFILE").unwrap(), "infra");
    assert_eq!(seen.get("HOME").unwrap(), "/root");
    assert_eq!(seen.get("KUBECONFIG").unwrap(), "/k");
    assert!(seen.get("PATH").is_none());
    assert_eq!(seen.to_vec().len(), 3);
    assert_eq!(inherited.get("AWS_PROFILE").unwrap(), "default");
}

#[test]
fn empty_overlay_changes_nothing() {
    let inherited = EnvVars::new().with("AWS_PROFILE", "default");
    let seen = EnvVars::new().onto(&inherited);
    assert_eq!(seen.to_vec(), vec![pair("AWS_PROFILE", "default")]);
}

#[test]
fn launch_parts_program_from_arguments() {
    let mut c = Cmd::new(vec!["terraform", "apply", "tfplan.out"]);
    c.env("AWS_PROFILE", "infra").dir("/tf".to_string()).writes_file("/tmp/o".to_string());
    let l = c.launch().ok().unwrap();
    assert_eq!(l.program, "terraform");
    assert_eq!(l.args, vec!["apply".to_string(), "tfplan.out".to_string()]);
    assert_eq!(l.env, vec![pair("AWS_PROFILE", "infra")]);
    assert_eq!(l.dir, Some("/tf".to_string()));
    assert_eq!(l.capture, Some("/tmp/o".to_string()));
}

#[test]
fn launch_of_a_lone_program_has_no_arguments() {
    let l = Cmd::new(vec!["ls"]).launch().ok().unwrap();
    assert_eq!(l.program, "ls");
    assert!(l.args.is_empty());
    assert!(l.env.is_empty());
    assert_eq!(l.dir, None);
    assert_eq!(l.capture, None);
}

#[test]
fn launch_refuses_a_command_without_program() {
    assert_eq!(Cmd::new(vec![]).launch().err(), Some(RunError::InvalidStep));
}

#[test]
fn resolved_dir_prefers_the_commands_own() {
    let mut c = Cmd::new(vec!["ls"]);
    assert_eq!(c.resolved_dir("/here"), "/here");
    c.dir("/there".to_string());
    assert_eq!(c.resolved_dir("/here"), "/there");
}

#[test]
fn capture_keeps_the_bytes_whatever_the_exit_code() {
    let mut c = Cmd::new(vec!["helm", "template"]);
    c.writes_file("/tmp/argo_template.yaml".to_string());
    let bytes: Vec<u8> = vec![0, 159, 146, 150, 10, 255];
    for code in [Some(0), Some(1), Some(-3), None] {
        let r = ExecutionResult { code, output: Some(bytes.clone()) };
        let kept = c.capture(&r).unwrap();
        assert_eq!(kept.0, "/tmp/argo_template.yaml");
        assert_eq!(kept.1, bytes);
    }
}

#[test]
fn capture_needs_a_target_and_output() {
    let plain = Cmd::new(vec!["ls"]);
    assert!(plain.capture(&printed(0, "x")).is_none());
    let mut c = Cmd::new(vec!["ls"]);
    c.writes_file("/tmp/o".to_string());
    assert!(c.capture(&exited(0)).is_none());
    assert_eq!(c.capture(&printed(0, "")).unwrap().1, Vec::<u8>::new());
}

#[test]
fn success_is_exit_code_zero() {
    for code in [-1, 0, 1, 2, 255, i32::MAX, i32::MIN] {
        assert_eq!(Expect::Success.verify(&exited(code)), code == 0);
        assert_eq!(Expect::Failure.verify(&exited(code)), code != 0);
        assert!(Expect::Any.verify(&exited(code)));
        for wanted in [-1, 0, 1, 2, 255] {
            assert_eq!(Expect::Code(wanted).verify(&exited(code)), code == wanted);
        }
    }
}

#[test]
fn a_signal_is_a_failure_and_matches_no_code() {
    let killed = ExecutionResult { code: None, output: None };
    assert!(!Expect::Success.verify(&killed));
    assert!(Expect::Failure.verify(&killed));
    assert!(Expect::Any.verify(&killed));
    assert!(!Expect::Code(0).verify(&killed));
    assert!(!Expect::Code(1).verify(&killed));
    assert!(!killed.success());
    assert!(!killed.exited_with(0));
}

#[test]
fn output_expectations_look_for_the_text() {
    let ready = printed(0, "service is ready\n");
    assert!(Expect::Output("ready".to_string()).verify(&ready));
    assert!(Expect::Output("service".to_string()).verify(&ready));
    assert!(Expect::Output("ready\n".to_string()).verify(&ready));
    assert!(Expect::Output("".to_string()).verify(&ready));
    assert!(!Expect::Output("Ready".to_string()).verify(&ready));
    assert!(!Expect::Output("service is ready\n!".to_string()).verify(&ready));
    assert!(!Expect::Output("ready".to_string()).verify(&exited(0)));
    assert!(!Expect::Output("".to_string()).verify(&exited(0)));
    assert!(Expect::Output("gr\u{fc}n".to_string()).verify(&printed(0, "alles gr\u{fc}n")));
}

#[test]
fn output_expectations_also_hold_the_exit_code() {
    let ok = printed(0, "done");
    let bad = printed(2, "done");
    assert!(Expect::SuccessWithOutput("done".to_string()).verify(&ok));
    assert!(!Expect::SuccessWithOutput("done".to_string()).verify(&bad));
    assert!(!Expect::SuccessWithOutput("gone".to_string()).verify(&ok));
    assert!(Expect::FailureWithOutput("done".to_string()).verify(&bad));
    assert!(!Expect::FailureWithOutput("done".to_string()).verify(&ok));
    assert!(!Expect::FailureWithOutput("gone".to_string()).verify(&bad));
    assert!(Expect::CodeWithOutput((2, "done".to_string())).verify(&bad));
    assert!(!Expect::CodeWithOutput((2, "done".to_string())).verify(&ok));
    assert!(!Expect::CodeWithOutput((2, "gone".to_string())).verify(&bad));
    assert!(!Expect::CodeWithOutput((2, "done".to_string())).verify(&exited(2)));
}

#[test]
fn only_output_expectations_need_output() {
    assert!(Expect::Output("x".to_string()).needs_output());
    assert!(Expect::CodeWithOutput((0, "x".to_string())).needs_output());
    assert!(Expect::SuccessWithOutput("x".to_string()).needs_output());
    assert!(Expect::FailureWithOutput("x".to_string()).needs_output());
    assert!(!Expect::Code(3).needs_output());
    assert!(!Expect::Success.needs_output());
    assert!(!Expect::Failure.needs_output());
    assert!(!Expect::Any.needs_output());
}

#[test]
fn shows_finds_text_at_every_place() {
    let r = printed(0, "abcabd");
    assert!(r.shows("abc"));
    assert!(r.shows("abd"));
    assert!(r.shows("cab"));
    assert!(r.shows("abcabd"));
    assert!(!r.shows("abcabda"));
    assert!(!r.shows("abe"));
    assert!(printed(0, "").shows(""));
    assert!(!printed(0, "").shows("a"));
}

#[test]
fn step_is_made_of_its_parts() {
    let mut c = Cmd::new(vec!["kubectl", "get", "pods"]);
    c.env("KUBECONFIG", "/k");
    let s = Step::new("Execute?", c, Expect::Code(3)).ok().unwrap();
    assert_eq!(s.prompt, "Execute?");
    assert_eq!(s.cmd.command, vec!["kubectl".to_string(), "get".to_string(), "pods".to_string()]);
    assert_eq!(s.cmd.env.as_ref().unwrap().to_vec(), vec![pair("KUBECONFIG", "/k")]);
    assert!(matches!(s.expect, Expect::Code(3)));
    assert!(s.valid());
}

#[test]
fn step_without_program_is_invalid() {
    let made = Step::new("Execute?", Cmd::new(vec![]), Expect::Any);
    assert_eq!(made.err(), Some(RunError::InvalidStep));
}

#[test]
fn step_that_reads_output_must_capture_it() {
    let made = Step::new("Execute?", Cmd::new(vec!["ls"]), Expect::Output("x".to_string()));
    assert_eq!(made.err(), Some(RunError::InvalidStep));
    let mut c = Cmd::new(vec!["ls"]);
    c.writes_file("/tmp/ls.out".to_string());
    assert!(Step::new("Execute?", c, Expect::Output("x".to_string())).is_ok());
}

#[test]
fn step_outcome_follows_the_decision() {
    let s = Step::new("Execute?", Cmd::new(vec!["ls"]), Expect::Success).ok().unwrap();
    assert_eq!(
        s.outcome(GateDecision::Execute, &exited(0)),
        StepOutcome::Executed { matched: true }
    );
    assert_eq!(
        s.outcome(GateDecision::Execute, &exited(1)),
        StepOutcome::Executed { matched: false }
    );
    assert_eq!(s.outcome(GateDecision::Skip, &exited(1)), StepOutcome::Skipped);
    assert_eq!(s.outcome(GateDecision::Abort, &exited(0)), StepOutcome::Aborted);
}

#[test]
fn only_a_mismatch_is_recoverable() {
    assert!(RunError::OutcomeMismatch.recoverable());
    assert!(!RunError::InvalidStep.recoverable());
    assert!(!RunError::SpawnFailed.recoverable());
    assert!(!RunError::UserAbort.recoverable());
}

#[test]
fn gates_offer_their_choices_in_order() {
    assert_eq!(confirmation_labels(), vec!["execute", "exit", "skip"]);
    assert_eq!(mismatch_labels(), vec!["continue", "exit"]);
    assert_eq!(MISMATCH_WARNING, "Previous command behaved unexpectedly. Proceed with caution.");
}

#[test]
fn picks_are_read_by_position() {
    assert_eq!(gate_decision(0), Some(GateDecision::Execute));
    assert_eq!(gate_decision(1), Some(GateDecision::Abort));
    assert_eq!(gate_decision(2), Some(GateDecision::Skip));
    assert_eq!(gate_decision(3), None);
    assert_eq!(mismatch_decision(0), Some(MismatchDecision::Continue));
    assert_eq!(mismatch_decision(1), Some(MismatchDecision::Abort));
    assert_eq!(mismatch_decision(2), None);
    assert_eq!(agreed(0), Some(true));
    assert_eq!(agreed(1), Some(false));
    assert_eq!(agreed(usize::MAX), None);
}

#[test]
fn a_copy_of_a_command_is_its_own() {
    let mut c = Cmd::new(vec!["ls", "-l"]);
    c.env("KEY", "VALUE").dir("/srv".to_string()).writes_file("/tmp/o".to_string());
    let mut d = c.clone();
    d.env("KEY", "OTHER").env("MORE", "1");
    assert_eq!(d.command, c.command);
    assert_eq!(d.working_dir, c.working_dir);
    assert_eq!(d.writes_file, c.writes_file);
    assert_eq!(c.env.as_ref().unwrap().to_vec(), vec![pair("KEY", "VALUE")]);
    assert_eq!(sorted(d.env.as_ref().unwrap().to_vec()), vec![pair("KEY", "OTHER"), pair("MORE", "1")]);
    let e = c.env.as_ref().unwrap().clone();
    assert_eq!(e.to_vec(), vec![pair("KEY", "VALUE")]);
}

#[test]
fn bytes_are_found_where_they_stand() {
    let hay = b"abcabd".to_vec();
    assert!(clusterctl::text::found_at(&hay, &b"abd".to_vec(), 3));
    assert!(!clusterctl::text::found_at(&hay, &b"abd".to_vec(), 0));
    assert!(!clusterctl::text::found_at(&hay, &b"abd".to_vec(), 4));
    assert!(!clusterctl::text::found_at(&hay, &b"abd".to_vec(), 7));
    assert!(clusterctl::text::found_at(&hay, &Vec::new(), 6));
    assert!(!clusterctl::text::found_at(&hay, &Vec::new(), 7));
    assert!(clusterctl::text::contains_bytes(&hay, &b"cab".to_vec()));
    assert!(!clusterctl::text::contains_bytes(&hay, &b"cba".to_vec()));
    assert!(clusterctl::text::starts_with("production1", "production"));
    assert!(!clusterctl::text::starts_with("prod", "production"));
    assert!(clusterctl::text::starts_with("x", ""));
    assert!(clusterctl::text::same_text("gr\u{fc}n", "gr\u{fc}n"));
    assert!(!clusterctl::text::same_text("a", "b"));
    assert!(!clusterctl::text::same_text("a", "ab"));
    assert_eq!(clusterctl::text::chars_of("a\u{fc}"), vec!['a', '\u{fc}']);
}
