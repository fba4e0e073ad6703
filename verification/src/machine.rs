//! The course of a runbook: which stage is up, what is to be done for it,
//! and where each answer of the operator and each end of a process leads.
//! Nothing here prompts or spawns; whoever drives the machine does what
//! the state asks for and reports back what happened.

use vstd::prelude::*;
use crate::gate::{agreed, agreement, gate_choice, gate_decision, mismatch_choice, mismatch_decision};
use crate::gate::{GateDecision, MismatchDecision};
use crate::runner::{ExecutionResult, ResultView, RunError};
use crate::runbook::{stage_views, Refusal, Stage, StageView};

verus! {

/// Where a runbook stands. The first four say what is to be done next for
/// the stage at the given position; the others are final.
#[derive(Clone, Copy, Debug, PartialEq, Eq)]
pub enum State {
    /// The stage is to be put before the operator: its text shown, its
    /// question asked, its gate put up, or its file written.
    Present(usize),
    /// The stage's command is to be spawned and waited for.
    Spawn(usize),
    /// The stage's command did not do what was expected: the
    /// mismatch gate is to be put up.
    Warn(usize),
    /// The stage's command failed where failure is tolerated: the operator
    /// is to be told so.
    Remark(usize),
    /// Every stage is behind.
    Completed,
    /// The operator declined to go on; nothing is amiss.
    Stopped,
    /// The program is to end at once with a failing status.
    Aborted,
    /// The stage at the given position ended the runbook with an error.
    Failed(usize, RunError),
}

/// What the driver reports back.
pub enum Event {
    /// What was to be shown, written or opened has been.
    Shown,
    /// The operator picked the choice at this position.
    Chosen(usize),
    /// The process ended.
    Exited(ExecutionResult),
    /// The system could not do what was asked (start the process, write the file).
    Failed,
}

/// An event as plain values.
pub enum EventView {
    Shown,
    Chosen(usize),
    Exited(ResultView),
    Failed,
}

impl View for Event {
    type V = EventView;

    open spec fn view(&self) -> EventView {
        match self {
            Event::Shown => EventView::Shown,
            Event::Chosen(k) => EventView::Chosen(*k),
            Event::Exited(result) => EventView::Exited(result@),
            Event::Failed => EventView::Failed,
        }
    }
}

/// Each event of a list as plain values.
pub open spec fn event_views(events: Seq<Event>) -> Seq<EventView> {
    events.map_values(|event: Event| event@)
}

impl State {
    /// Whether the runbook is over.
    pub open spec fn is_final(self) -> bool {
        self is Completed || self is Stopped || self is Aborted || self is Failed
    }

    /// The status with which the program ends in a final state: zero
    /// where nothing is amiss, one after an abort or an error.
    pub open spec fn status(self) -> Option<i32> {
        match self {
            State::Completed => Some(0i32),
            State::Stopped => Some(0i32),
            State::Aborted => Some(1i32),
            State::Failed(_, _) => Some(1i32),
            _ => None,
        }
    }

    /// The error that the state stands for, if any. An unexpected outcome
    /// is an error only while its gate is up.
    pub open spec fn fault(self) -> Option<RunError> {
        match self {
            State::Warn(_) => Some(RunError::OutcomeMismatch),
            State::Aborted => Some(RunError::UserAbort),
            State::Failed(_, error) => Some(error),
            _ => None,
        }
    }

    /// Whether the runbook is over.
    pub fn finished(&self) -> (over: bool)
        ensures
            over == self.is_final(),
    {
        match self {
            State::Completed => true,
            State::Stopped => true,
            State::Aborted => true,
            State::Failed(_, _) => true,
            _ => false,
        }
    }

    /// The status with which the program ends, once the runbook is over.
    pub fn exit_status(&self) -> (code: Option<i32>)
        ensures
            code == self.status(),
    {
        match self {
            State::Completed => Some(0),
            State::Stopped => Some(0),
            State::Aborted => Some(1),
            State::Failed(_, _) => Some(1),
            _ => None,
        }
    }

    /// The error that the state stands for, if any.
    pub fn error(&self) -> (found: Option<RunError>)
        ensures
            found == self.fault(),
    {
        match self {
            State::Warn(_) => Some(RunError::OutcomeMismatch),
            State::Aborted => Some(RunError::UserAbort),
            State::Failed(_, error) => Some(*error),
            _ => None,
        }
    }
}

/// The state in which the runbook takes up the stage at `at`: over when
/// there is no such stage; failed, before anything is shown, when the
/// stage is malformed; aborted when the stage halts the program.
pub open spec fn enter(stages: Seq<StageView>, at: usize) -> State {
    if at >= stages.len() {
        State::Completed
    } else if !stages[at as int].ready() {
        State::Failed(at, RunError::InvalidStep)
    } else if stages[at as int] is Halt {
        State::Aborted
    } else {
        State::Present(at)
    }
}

/// The state in which the runbook begins.
pub open spec fn begin(stages: Seq<StageView>) -> State {
    enter(stages, 0)
}

/// The state that follows once the stage at `at` is behind.
pub open spec fn after(stages: Seq<StageView>, at: usize) -> State {
    if at + 1 >= stages.len() {
        State::Completed
    } else {
        enter(stages, (at + 1) as usize)
    }
}

/// Where declining leads.
pub open spec fn refused(stages: Seq<StageView>, at: usize, refusal: Refusal) -> State {
    match refusal {
        Refusal::Stop => State::Stopped,
        Refusal::Skip => after(stages, at),
        Refusal::Fail => State::Failed(at, RunError::UserAbort),
    }
}

/// Where `event` leads while the stage at `at` is before the operator.
pub open spec fn presented(stages: Seq<StageView>, at: usize, event: EventView) -> State {
    let stay = State::Present(at);
    let stage = stages[at as int];
    if !stage.ready() {
        State::Failed(at, RunError::InvalidStep)
    } else {
        match stage {
            StageView::Say(_) | StageView::Pause(_) => if event is Shown {
                after(stages, at)
            } else {
                stay
            },
            StageView::Write(_) => match event {
                EventView::Shown => after(stages, at),
                EventView::Failed => State::Failed(at, RunError::SpawnFailed),
                _ => stay,
            },
            StageView::Halt => State::Aborted,
            StageView::Run(_) => match event {
                EventView::Chosen(k) => match gate_choice(k as int) {
                    Some(GateDecision::Execute) => State::Spawn(at),
                    Some(GateDecision::Abort) => State::Aborted,
                    Some(GateDecision::Skip) => after(stages, at),
                    None => stay,
                },
                _ => stay,
            },
            StageView::Ask(question) => match event {
                EventView::Chosen(k) => match agreement(k as int) {
                    Some(true) => after(stages, at),
                    Some(false) => refused(stages, at, question.refusal),
                    None => stay,
                },
                _ => stay,
            },
            StageView::Direct(direct) => match event {
                EventView::Chosen(k) => match agreement(k as int) {
                    Some(true) => State::Spawn(at),
                    Some(false) => refused(stages, at, direct.refusal),
                    None => stay,
                },
                _ => stay,
            },
            StageView::Browse(_) => match event {
                EventView::Chosen(k) => match agreement(k as int) {
                    Some(true) => State::Spawn(at),
                    Some(false) => after(stages, at),
                    None => stay,
                },
                _ => stay,
            },
        }
    }
}

/// Where `event` leads while the command of the stage at `at` is awaited.
pub open spec fn awaited(stages: Seq<StageView>, at: usize, event: EventView) -> State {
    let stay = State::Spawn(at);
    match stages[at as int] {
        StageView::Run(step) => match event {
            EventView::Exited(result) => if step.expect.allows(result) {
                after(stages, at)
            } else {
                State::Warn(at)
            },
            EventView::Failed => State::Failed(at, RunError::SpawnFailed),
            _ => stay,
        },
        StageView::Direct(direct) => match event {
            EventView::Exited(result) => if !direct.rule.accepts(result) {
                State::Failed(at, RunError::OutcomeMismatch)
            } else if direct.rule.remarks(result) {
                State::Remark(at)
            } else {
                after(stages, at)
            },
            EventView::Failed => State::Failed(at, RunError::SpawnFailed),
            _ => stay,
        },
        StageView::Browse(_) => match event {
            EventView::Shown => after(stages, at),
            EventView::Failed => State::Failed(at, RunError::SpawnFailed),
            _ => stay,
        },
        _ => stay,
    }
}

/// Where `event` leads while the mismatch gate is up.
pub open spec fn warned(stages: Seq<StageView>, at: usize, event: EventView) -> State {
    match event {
        EventView::Chosen(k) => match mismatch_choice(k as int) {
            Some(MismatchDecision::Continue) => after(stages, at),
            Some(MismatchDecision::Abort) => State::Aborted,
            None => State::Warn(at),
        },
        _ => State::Warn(at),
    }
}

/// The state that follows `state` on `event`. An event that the state
/// does not wait for changes nothing, and a final state stays as it is.
pub open spec fn next(stages: Seq<StageView>, state: State, event: EventView) -> State {
    match state {
        State::Present(at) => if at < stages.len() {
            presented(stages, at, event)
        } else {
            state
        },
        State::Spawn(at) => if at < stages.len() {
            awaited(stages, at, event)
        } else {
            state
        },
        State::Warn(at) => if at < stages.len() {
            warned(stages, at, event)
        } else {
            state
        },
        State::Remark(at) => if at < stages.len() && event is Shown {
            after(stages, at)
        } else {
            state
        },
        _ => state,
    }
}

/// The state in which the runbook takes up the stage at `at`.
pub fn enter_at(stages: &Vec<Stage>, at: usize) -> (state: State)
    ensures
        state == enter(stage_views(stages@), at),
{
    if at >= stages.len() {
        State::Completed
    } else if !stages[at].ready() {
        State::Failed(at, RunError::InvalidStep)
    } else {
        match &stages[at] {
            Stage::Halt => State::Aborted,
            _ => State::Present(at),
        }
    }
}

/// The state in which the runbook begins.
pub fn start(stages: &Vec<Stage>) -> (state: State)
    ensures
        state == begin(stage_views(stages@)),
{
    enter_at(stages, 0)
}

fn leave(stages: &Vec<Stage>, at: usize) -> (state: State)
    requires
        at < stages.len(),
    ensures
        state == after(stage_views(stages@), at),
{
    if at + 1 >= stages.len() {
        State::Completed
    } else {
        enter_at(stages, at + 1)
    }
}

fn decline(stages: &Vec<Stage>, at: usize, refusal: Refusal) -> (state: State)
    requires
        at < stages.len(),
    ensures
        state == refused(stage_views(stages@), at, refusal),
{
    match refusal {
        Refusal::Stop => State::Stopped,
        Refusal::Skip => leave(stages, at),
        Refusal::Fail => State::Failed(at, RunError::UserAbort),
    }
}

fn on_present(stages: &Vec<Stage>, at: usize, event: &Event) -> (state: State)
    requires
        at < stages.len(),
    ensures
        state == presented(stage_views(stages@), at, event@),
{
    let stay = State::Present(at);
    let stage = &stages[at];
    if !stage.ready() {
        return State::Failed(at, RunError::InvalidStep);
    }
    match stage {
        Stage::Say(_) => match event {
            Event::Shown => leave(stages, at),
            _ => stay,
        },
        Stage::Pause(_) => match event {
            Event::Shown => leave(stages, at),
            _ => stay,
        },
        Stage::Write(_) => match event {
            Event::Shown => leave(stages, at),
            Event::Failed => State::Failed(at, RunError::SpawnFailed),
            _ => stay,
        },
        Stage::Halt => State::Aborted,
        Stage::Run(_) => match event {
            Event::Chosen(k) => match gate_decision(*k) {
                Some(GateDecision::Execute) => State::Spawn(at),
                Some(GateDecision::Abort) => State::Aborted,
                Some(GateDecision::Skip) => leave(stages, at),
                None => stay,
            },
            _ => stay,
        },
        Stage::Ask(question) => match event {
            Event::Chosen(k) => match agreed(*k) {
                Some(true) => leave(stages, at),
                Some(false) => decline(stages, at, question.refusal),
                None => stay,
            },
            _ => stay,
        },
        Stage::Direct(direct) => match event {
            Event::Chosen(k) => match agreed(*k) {
                Some(true) => State::Spawn(at),
                Some(false) => decline(stages, at, direct.refusal),
                None => stay,
            },
            _ => stay,
        },
        Stage::Browse(_) => match event {
            Event::Chosen(k) => match agreed(*k) {
                Some(true) => State::Spawn(at),
                Some(false) => leave(stages, at),
                None => stay,
            },
            _ => stay,
        },
    }
}

fn on_spawn(stages: &Vec<Stage>, at: usize, event: &Event) -> (state: State)
    requires
        at < stages.len(),
    ensures
        state == awaited(stage_views(stages@), at, event@),
{
    let stay = State::Spawn(at);
    match &stages[at] {
        Stage::Run(step) => match event {
            Event::Exited(result) => if step.expect.verify(result) {
                leave(stages, at)
            } else {
                State::Warn(at)
            },
            Event::Failed => State::Failed(at, RunError::SpawnFailed),
            _ => stay,
        },
        Stage::Direct(direct) => match event {
            Event::Exited(result) => if !direct.rule.check(result) {
                State::Failed(at, RunError::OutcomeMismatch)
            } else if direct.rule.noted(result) {
                State::Remark(at)
            } else {
                leave(stages, at)
            },
            Event::Failed => State::Failed(at, RunError::SpawnFailed),
            _ => stay,
        },
        Stage::Browse(_) => match event {
            Event::Shown => leave(stages, at),
            Event::Failed => State::Failed(at, RunError::SpawnFailed),
            _ => stay,
        },
        _ => stay,
    }
}

fn on_warn(stages: &Vec<Stage>, at: usize, event: &Event) -> (state: State)
    requires
        at < stages.len(),
    ensures
        state == warned(stage_views(stages@), at, event@),
{
    match event {
        Event::Chosen(k) => match mismatch_decision(*k) {
            Some(MismatchDecision::Continue) => leave(stages, at),
            Some(MismatchDecision::Abort) => State::Aborted,
            None => State::Warn(at),
        },
        _ => State::Warn(at),
    }
}

/// Takes the runbook from `state` to the state that `event` leads to.
pub fn advance(stages: &Vec<Stage>, state: State, event: &Event) -> (following: State)
    ensures
        following == next(stage_views(stages@), state, event@),
{
    match state {
        State::Present(at) => if at < stages.len() {
            on_present(stages, at, event)
        } else {
            state
        },
        State::Spawn(at) => if at < stages.len() {
            on_spawn(stages, at, event)
        } else {
            state
        },
        State::Warn(at) => if at < stages.len() {
            on_warn(stages, at, event)
        } else {
            state
        },
        State::Remark(at) => if at < stages.len() {
            match event {
                Event::Shown => leave(stages, at),
                _ => state,
            }
        } else {
            state
        },
        _ => state,
    }
}

} // verus!
