//! The choices put before the operator, and what each of them decides.

use vstd::prelude::*;
use vstd::string::*;

verus! {

/// The message of the mismatch gate, which follows an unexpected outcome.
pub const MISMATCH_WARNING: &'static str =
    "Previous command behaved unexpectedly. Proceed with caution.";

/// What the operator decides before a step runs.
#[derive(Clone, Copy, Debug, PartialEq, Eq)]
pub enum GateDecision {
    /// Run the step.
    Execute,
    /// Leave the step out and go on as if it had been fine.
    Skip,
    /// End the whole program at once.
    Abort,
}

/// What the operator decides after a step behaved unexpectedly.
#[derive(Clone, Copy, Debug, PartialEq, Eq)]
pub enum MismatchDecision {
    /// Go on to the next step all the same.
    Continue,
    /// End the whole program at once.
    Abort,
}

/// The decision that stands at position `index` of the confirmation gate.
pub open spec fn gate_choice(index: int) -> Option<GateDecision> {
    if index == 0 {
        Some(GateDecision::Execute)
    } else if index == 1 {
        Some(GateDecision::Abort)
    } else if index == 2 {
        Some(GateDecision::Skip)
    } else {
        None
    }
}

/// The decision that stands at position `index` of the mismatch gate.
pub open spec fn mismatch_choice(index: int) -> Option<MismatchDecision> {
    if index == 0 {
        Some(MismatchDecision::Continue)
    } else if index == 1 {
        Some(MismatchDecision::Abort)
    } else {
        None
    }
}

/// The answer that stands at position `index` of a question with two
/// choices: the first agrees, the second declines.
pub open spec fn agreement(index: int) -> Option<bool> {
    if index == 0 {
        Some(true)
    } else if index == 1 {
        Some(false)
    } else {
        None
    }
}

/// The labels of the confirmation gate, in the order in which they are offered.
pub fn confirmation_labels() -> (labels: Vec<&'static str>)
    ensures
        labels@.len() == 3,
        labels@[0]@ == "execute"@,
        labels@[1]@ == "exit"@,
        labels@[2]@ == "skip"@,
{
    vec!["execute", "exit", "skip"]
}

/// The labels of the mismatch gate, in the order in which they are offered.
pub fn mismatch_labels() -> (labels: Vec<&'static str>)
    ensures
        labels@.len() == 2,
        labels@[0]@ == "continue"@,
        labels@[1]@ == "exit"@,
{
    vec!["continue", "exit"]
}

/// Reads the operator's pick at the confirmation gate.
pub fn gate_decision(index: usize) -> (decision: Option<GateDecision>)
    ensures
        decision == gate_choice(index as int),
{
    if index == 0 {
        Some(GateDecision::Execute)
    } else if index == 1 {
        Some(GateDecision::Abort)
    } else if index == 2 {
        Some(GateDecision::Skip)
    } else {
        None
    }
}

/// Reads the operator's pick at the mismatch gate.
pub fn mismatch_decision(index: usize) -> (decision: Option<MismatchDecision>)
    ensures
        decision == mismatch_choice(index as int),
{
    if index == 0 {
        Some(MismatchDecision::Continue)
    } else if index == 1 {
        Some(MismatchDecision::Abort)
    } else {
        None
    }
}

/// Reads the operator's pick at a question with two choices.
pub fn agreed(index: usize) -> (answer: Option<bool>)
    ensures
        answer == agreement(index as int),
{
    if index == 0 {
        Some(true)
    } else if index == 1 {
        Some(false)
    } else {
        None
    }
}

} // verus!
