//! A step: one command with the words that introduce it and the outcome
//! that is expected of it.

use vstd::prelude::*;
use vstd::string::*;
use crate::runner::{Cmd, CmdView, ExecutionResult, Expect, ExpectView, ResultView, RunError};
use crate::gate::GateDecision;

verus! {

/// One external command, the words that ask the operator about it, and
/// the outcome that counts as fine.
pub struct Step {
    pub prompt: String,
    pub cmd: Cmd,
    pub expect: Expect,
}

/// A step as plain values.
pub struct StepView {
    pub prompt: Seq<char>,
    pub cmd: CmdView,
    pub expect: ExpectView,
}

impl StepView {
    /// The step names a program, and captures output if its expectation
    /// reads output.
    pub open spec fn valid(self) -> bool {
        &&& self.cmd.command.len() >= 1
        &&& self.expect.needs_output() ==> self.cmd.writes_file is Some
    }
}

impl View for Step {
    type V = StepView;

    open spec fn view(&self) -> StepView {
        StepView { prompt: self.prompt@, cmd: self.cmd@, expect: self.expect@ }
    }
}

/// How one step ended.
#[derive(Clone, Copy, Debug, PartialEq, Eq)]
pub enum StepOutcome {
    /// The command ran; `matched` says whether it did what was expected.
    Executed { matched: bool },
    /// The operator left the step out; nothing ran.
    Skipped,
    /// The operator ended the program; nothing ran.
    Aborted,
}

/// The outcome of a step, given what the operator decided before it and,
/// where it ran, what the process did.
pub open spec fn outcome_of(expect: ExpectView, decision: GateDecision, result: ResultView) -> StepOutcome {
    match decision {
        GateDecision::Execute => StepOutcome::Executed { matched: expect.allows(result) },
        GateDecision::Skip => StepOutcome::Skipped,
        GateDecision::Abort => StepOutcome::Aborted,
    }
}

impl Step {
    /// Puts a step together. A command without a program, or an
    /// expectation on output over a command that captures none, is refused
    /// here, before the operator is asked anything.
    pub fn new(prompt: &str, cmd: Cmd, expect: Expect) -> (made: Result<Step, RunError>)
        ensures
            made is Ok <==> (StepView { prompt: prompt@, cmd: cmd@, expect: expect@ }).valid(),
            made matches Ok(s) ==> s@ == (StepView { prompt: prompt@, cmd: cmd@, expect: expect@ }),
            made matches Err(e) ==> e == RunError::InvalidStep,
    {
        if !cmd.runnable() {
            return Err(RunError::InvalidStep);
        }
        if expect.needs_output() && cmd.writes_file.is_none() {
            return Err(RunError::InvalidStep);
        }
        Ok(Step { prompt: String::from_str(prompt), cmd, expect })
    }

    /// Whether the step is well formed.
    pub fn valid(&self) -> (ok: bool)
        ensures
            ok == self@.valid(),
    {
        self.cmd.runnable() && (!self.expect.needs_output() || self.cmd.writes_file.is_some())
    }

    /// How the step ended: skipped or aborted at its gate, or executed,
    /// and then with the verdict on `result`. `result` is read only where
    /// the operator chose to execute.
    pub fn outcome(&self, decision: GateDecision, result: &ExecutionResult) -> (end: StepOutcome)
        ensures
            end == outcome_of(self@.expect, decision, result@),
    {
        match decision {
            GateDecision::Execute => StepOutcome::Executed { matched: self.expect.verify(result) },
            GateDecision::Skip => StepOutcome::Skipped,
            GateDecision::Abort => StepOutcome::Aborted,
        }
    }
}

} // verus!
