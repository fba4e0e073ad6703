use clusterctl::machine::{advance, enter_at, start, Event, State};
use clusterctl::runbook::{ask, browse, direct, document, pause, run, say};
use clusterctl::runbook::{Labels, Refusal, Stage, StatusRule};
use clusterctl::runner::{Cmd, ExecutionResult, Expect, RunError};
use clusterctl::trace::replay;

const EXECUTE: usize = 0;
const EXIT: usize = 1;
const SKIP: usize = 2;
const CONTINUE: usize = 0;
const YES: usize = 0;
const NO: usize = 1;

fn step(expect: Expect) -> Stage {
    run("Execute?", Cmd::new(vec!["true"]), expect)
}

fn code(c: i32) -> Event {
    Event::Exited(ExecutionResult { code: Some(c), output: None })
}

fn guarded(rule: StatusRule, refusal: Refusal) -> Stage {
    direct("Execute command?", Labels::YesNo, Cmd::new(vec!["terraform", "apply"]), rule, refusal, "unexpected error")
}

#[test]
fn all_expected_outcomes_raise_no_warning() {
    let stages = vec![step(Expect::Success), step(Expect::Failure), step(Expect::Any)];
    let events = vec![
        Event::Chosen(EXECUTE),
        code(0),
        Event::Chosen(EXECUTE),
        code(1),
        Event::Chosen(EXECUTE),
        code(0),
    ];
    let trace = replay(&stages, &events);
    assert_eq!(trace.end, State::Completed);
    assert_eq!(trace.spawned, vec![0, 1, 2]);
    assert!(trace.warned.is_empty());
    assert_eq!(trace.end.exit_status(), Some(0));
}

#[test]
fn exit_at_the_warning_ends_the_program() {
    let stages = vec![step(Expect::Success)];
    let trace = replay(&stages, &vec![Event::Chosen(EXECUTE), code(1), Event::Chosen(EXIT)]);
    assert_eq!(trace.end, State::Aborted);
    assert_eq!(trace.end.exit_status(), Some(1));
    assert_eq!(trace.end.error(), Some(RunError::UserAbort));
    assert_eq!(trace.spawned, vec![0]);
    assert_eq!(trace.warned, vec![0]);
}

#[test]
fn after_exit_at_the_warning_a_further_step_never_runs() {
    let stages = vec![step(Expect::Success), step(Expect::Any)];
    let events = vec![
        Event::Chosen(EXECUTE),
        code(1),
        Event::Chosen(EXIT),
        Event::Chosen(EXECUTE),
        code(0),
        Event::Shown,
    ];
    let trace = replay(&stages, &events);
    assert_eq!(trace.end, State::Aborted);
    assert_eq!(trace.spawned, vec![0]);
}

#[test]
fn continue_at_the_warning_lets_the_next_step_run() {
    let stages = vec![step(Expect::Success), step(Expect::Any)];
    let events = vec![
        Event::Chosen(EXECUTE),
        code(1),
        Event::Chosen(CONTINUE),
        Event::Chosen(EXECUTE),
        code(0),
    ];
    let trace = replay(&stages, &events);
    assert_eq!(trace.end, State::Completed);
    assert_eq!(trace.spawned, vec![0, 1]);
    assert_eq!(trace.warned, vec![0]);
    assert_eq!(trace.end.error(), None);
    assert_eq!(trace.end.exit_status(), Some(0));
}

#[test]
fn skip_spawns_nothing() {
    let stages = vec![step(Expect::Success)];
    let trace = replay(&stages, &vec![Event::Chosen(SKIP)]);
    assert_eq!(trace.end, State::Completed);
    assert!(trace.spawned.is_empty());
    assert!(trace.warned.is_empty());
}

#[test]
fn skip_leads_where_a_matching_run_leads() {
    let stages = vec![step(Expect::Code(7)), step(Expect::Any)];
    let skipped = replay(&stages, &vec![Event::Chosen(SKIP)]);
    let ran = replay(&stages, &vec![Event::Chosen(EXECUTE), code(7)]);
    assert_eq!(skipped.end, State::Present(1));
    assert_eq!(ran.end, skipped.end);
    assert!(skipped.spawned.is_empty());
    assert_eq!(ran.spawned, vec![0]);
}

#[test]
fn exit_at_the_first_gate_runs_nothing_at_all() {
    let stages = vec![step(Expect::Success), step(Expect::Success)];
    let events = vec![Event::Chosen(EXIT), Event::Chosen(EXECUTE), code(0), Event::Chosen(EXECUTE)];
    let trace = replay(&stages, &events);
    assert_eq!(trace.end, State::Aborted);
    assert!(trace.spawned.is_empty());
    assert_eq!(trace.end.exit_status(), Some(1));
}

#[test]
fn a_process_that_cannot_start_fails_the_step_without_a_gate() {
    let stages = vec![step(Expect::Any), step(Expect::Any)];
    let trace = replay(&stages, &vec![Event::Chosen(EXECUTE), Event::Failed, Event::Chosen(CONTINUE)]);
    assert_eq!(trace.end, State::Failed(0, RunError::SpawnFailed));
    assert!(trace.warned.is_empty());
    assert_eq!(trace.end.exit_status(), Some(1));
    assert_eq!(trace.end.error(), Some(RunError::SpawnFailed));
}

#[test]
fn a_malformed_step_fails_before_any_gate() {
    let stages = vec![run("Execute?", Cmd::new(vec![]), Expect::Any)];
    assert_eq!(start(&stages), State::Failed(0, RunError::InvalidStep));
    let reads = vec![step(Expect::Any), run("Execute?", Cmd::new(vec!["ls"]), Expect::Output("x".to_string()))];
    assert_eq!(start(&reads), State::Present(0));
    assert_eq!(
        advance(&reads, State::Present(0), &Event::Chosen(SKIP)),
        State::Failed(1, RunError::InvalidStep)
    );
    assert_eq!(
        advance(&reads, State::Present(1), &Event::Chosen(EXECUTE)),
        State::Failed(1, RunError::InvalidStep)
    );
}

#[test]
fn an_empty_runbook_is_over_at_once() {
    let stages: Vec<Stage> = vec![];
    assert_eq!(start(&stages), State::Completed);
    let trace = replay(&stages, &vec![Event::Shown, Event::Chosen(0)]);
    assert_eq!(trace.end, State::Completed);
}

#[test]
fn a_pick_that_is_not_offered_changes_nothing() {
    let stages = vec![step(Expect::Success)];
    assert_eq!(advance(&stages, State::Present(0), &Event::Chosen(3)), State::Present(0));
    assert_eq!(advance(&stages, State::Warn(0), &Event::Chosen(2)), State::Warn(0));
    assert_eq!(advance(&stages, State::Present(0), &Event::Shown), State::Present(0));
    assert_eq!(advance(&stages, State::Present(0), &code(0)), State::Present(0));
    assert_eq!(advance(&stages, State::Spawn(0), &Event::Chosen(EXECUTE)), State::Spawn(0));
    assert_eq!(advance(&stages, State::Present(5), &Event::Chosen(EXECUTE)), State::Present(5));
}

#[test]
fn the_warning_stands_for_a_mismatch_while_it_is_up() {
    let stages = vec![step(Expect::Success)];
    let warned = advance(&stages, State::Spawn(0), &code(2));
    assert_eq!(warned, State::Warn(0));
    assert_eq!(warned.error(), Some(RunError::OutcomeMismatch));
    assert_eq!(warned.exit_status(), None);
    assert!(!warned.finished());
    let on = advance(&stages, warned, &Event::Chosen(CONTINUE));
    assert_eq!(on, State::Completed);
    assert_eq!(on.error(), None);
    assert!(on.finished());
}

#[test]
fn final_states_stay() {
    let stages = vec![step(Expect::Success), step(Expect::Success)];
    for state in [State::Completed, State::Stopped, State::Aborted, State::Failed(0, RunError::SpawnFailed)] {
        assert!(state.finished());
        for event in [Event::Shown, Event::Chosen(0), Event::Chosen(1), code(0), Event::Failed] {
            assert_eq!(advance(&stages, state, &event), state);
        }
    }
}

#[test]
fn text_and_waits_go_on_once_shown() {
    let stages = vec![say("hello"), pause("wait"), say("bye")];
    assert_eq!(start(&stages), State::Present(0));
    let trace = replay(&stages, &vec![Event::Shown, Event::Chosen(0), Event::Shown]);
    assert_eq!(trace.end, State::Present(2));
    let all = replay(&stages, &vec![Event::Shown, Event::Shown, Event::Shown]);
    assert_eq!(all.end, State::Completed);
    assert!(all.spawned.is_empty());
}

#[test]
fn a_question_leads_where_its_refusal_says() {
    let stop = vec![ask("Proceed?", Refusal::Stop, ""), say("on")];
    assert_eq!(advance(&stop, State::Present(0), &Event::Chosen(YES)), State::Present(1));
    assert_eq!(advance(&stop, State::Present(0), &Event::Chosen(NO)), State::Stopped);
    assert_eq!(State::Stopped.exit_status(), Some(0));
    let fail = vec![ask("Right workspace?", Refusal::Fail, "wrong workspace"), say("on")];
    assert_eq!(
        advance(&fail, State::Present(0), &Event::Chosen(NO)),
        State::Failed(0, RunError::UserAbort)
    );
    let skip = vec![ask("Really?", Refusal::Skip, ""), say("on")];
    assert_eq!(advance(&skip, State::Present(0), &Event::Chosen(NO)), State::Present(1));
}

#[test]
fn a_direct_command_is_judged_by_its_rule() {
    let stages = vec![guarded(StatusRule::Success, Refusal::Stop), say("on")];
    assert_eq!(advance(&stages, State::Present(0), &Event::Chosen(YES)), State::Spawn(0));
    assert_eq!(advance(&stages, State::Present(0), &Event::Chosen(NO)), State::Stopped);
    assert_eq!(advance(&stages, State::Spawn(0), &code(0)), State::Present(1));
    assert_eq!(
        advance(&stages, State::Spawn(0), &code(2)),
        State::Failed(0, RunError::OutcomeMismatch)
    );
    assert_eq!(
        advance(&stages, State::Spawn(0), &Event::Failed),
        State::Failed(0, RunError::SpawnFailed)
    );
}

#[test]
fn only_exit_code_one_breaks_the_plan_rule() {
    let stages = vec![guarded(StatusRule::NotOne, Refusal::Stop), say("on")];
    assert_eq!(advance(&stages, State::Spawn(0), &code(0)), State::Present(1));
    assert_eq!(advance(&stages, State::Spawn(0), &code(2)), State::Present(1));
    assert_eq!(
        advance(&stages, State::Spawn(0), &code(1)),
        State::Failed(0, RunError::OutcomeMismatch)
    );
    let killed = Event::Exited(ExecutionResult { code: None, output: None });
    assert_eq!(advance(&stages, State::Spawn(0), &killed), State::Present(1));
}

#[test]
fn a_tolerated_failure_is_remarked_upon() {
    let stages = vec![guarded(StatusRule::Tolerated, Refusal::Stop), say("on")];
    assert_eq!(advance(&stages, State::Spawn(0), &code(0)), State::Present(1));
    assert_eq!(advance(&stages, State::Spawn(0), &code(1)), State::Remark(0));
    assert_eq!(advance(&stages, State::Remark(0), &Event::Chosen(0)), State::Remark(0));
    assert_eq!(advance(&stages, State::Remark(0), &Event::Shown), State::Present(1));
    let trace = replay(&stages, &vec![Event::Chosen(YES), code(1), Event::Shown, Event::Shown]);
    assert_eq!(trace.end, State::Completed);
    assert_eq!(trace.spawned, vec![0]);
    assert!(trace.warned.is_empty());
}

#[test]
fn a_direct_command_can_be_skipped() {
    let stages = vec![guarded(StatusRule::Success, Refusal::Skip), say("on")];
    let trace = replay(&stages, &vec![Event::Chosen(NO)]);
    assert_eq!(trace.end, State::Present(1));
    assert!(trace.spawned.is_empty());
}

#[test]
fn a_direct_command_without_program_is_malformed() {
    let stages = vec![direct("Go?", Labels::YesNo, Cmd::new(vec![]), StatusRule::Success, Refusal::Stop, "")];
    assert_eq!(start(&stages), State::Failed(0, RunError::InvalidStep));
}

#[test]
fn an_offer_opens_the_address_only_on_yes() {
    let stages = vec![browse("Open?", "https://example.org"), say("on")];
    assert_eq!(advance(&stages, State::Present(0), &Event::Chosen(NO)), State::Present(1));
    assert_eq!(advance(&stages, State::Present(0), &Event::Chosen(YES)), State::Spawn(0));
    assert_eq!(advance(&stages, State::Spawn(0), &Event::Shown), State::Present(1));
    assert_eq!(
        advance(&stages, State::Spawn(0), &Event::Failed),
        State::Failed(0, RunError::SpawnFailed)
    );
}

#[test]
fn a_file_is_written_or_the_runbook_fails() {
    let stages = vec![document("/tmp/x.yaml", "a: b\n"), say("on")];
    assert_eq!(advance(&stages, State::Present(0), &Event::Shown), State::Present(1));
    assert_eq!(
        advance(&stages, State::Present(0), &Event::Failed),
        State::Failed(0, RunError::SpawnFailed)
    );
    match &stages[0] {
        Stage::Write(d) => {
            assert_eq!(d.path, "/tmp/x.yaml");
            assert_eq!(d.contents, "a: b\n");
        }
        _ => panic!("not a file"),
    }
}

#[test]
fn a_halt_ends_the_program_without_asking() {
    let stages = vec![say("bye"), Stage::Halt, step(Expect::Any)];
    assert_eq!(advance(&stages, State::Present(0), &Event::Shown), State::Aborted);
    assert_eq!(enter_at(&stages, 1), State::Aborted);
    let trace = replay(&stages, &vec![Event::Shown, Event::Chosen(EXECUTE), code(0)]);
    assert_eq!(trace.end, State::Aborted);
    assert!(trace.spawned.is_empty());
}

#[test]
fn labels_come_in_pairs() {
    assert_eq!(Labels::YesNo.texts(), vec!["yes", "no"]);
    assert_eq!(Labels::ExecuteSkip.texts(), vec!["execute", "skip"]);
}

#[test]
fn rules_judge_results() {
    let ok = ExecutionResult { code: Some(0), output: None };
    let one = ExecutionResult { code: Some(1), output: None };
    let two = ExecutionResult { code: Some(2), output: None };
    assert!(StatusRule::Success.check(&ok) && !StatusRule::Success.check(&one));
    assert!(StatusRule::NotOne.check(&ok) && !StatusRule::NotOne.check(&one));
    assert!(StatusRule::NotOne.check(&two));
    assert!(StatusRule::Tolerated.check(&one));
    assert!(StatusRule::Tolerated.noted(&one) && !StatusRule::Tolerated.noted(&ok));
    assert!(!StatusRule::Success.noted(&one) && !StatusRule::NotOne.noted(&two));
}
