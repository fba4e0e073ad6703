//! A runbook: the stages that an operator is led through, one after the
//! other. A stage shows text, asks a question, or runs a command.

use vstd::prelude::*;
use vstd::string::*;
use crate::runner::{Cmd, CmdView, ExecutionResult, Expect, ExpectView, ResultView};
use crate::step::{Step, StepView};

verus! {

/// What follows when the operator declines.
#[derive(Clone, Copy, Debug, PartialEq, Eq)]
pub enum Refusal {
    /// The runbook ends there, with nothing amiss.
    Stop,
    /// The stage is left out and the runbook goes on.
    Skip,
    /// The runbook ends there with the stage's error.
    Fail,
}

/// How the exit status of a command that runs without an expectation is judged.
#[derive(Clone, Copy, Debug, PartialEq, Eq)]
pub enum StatusRule {
    /// Anything but success is an error.
    Success,
    /// Exit code 1 is an error; every other end is fine.
    NotOne,
    /// Nothing is an error. A failure is remarked upon and the runbook goes on.
    Tolerated,
}

impl StatusRule {
    /// Whether the rule lets the runbook go on after `result`.
    pub open spec fn accepts(self, result: ResultView) -> bool {
        match self {
            StatusRule::Success => result.success(),
            StatusRule::NotOne => result.code != Some(1i32),
            StatusRule::Tolerated => true,
        }
    }

    /// Whether the operator is told of `result` before the runbook goes on.
    pub open spec fn remarks(self, result: ResultView) -> bool {
        self == StatusRule::Tolerated && !result.success()
    }

    /// Whether the rule lets the runbook go on after `result`.
    pub fn check(&self, result: &ExecutionResult) -> (ok: bool)
        ensures
            ok == self.accepts(result@),
    {
        match self {
            StatusRule::Success => result.success(),
            StatusRule::NotOne => !result.exited_with(1),
            StatusRule::Tolerated => true,
        }
    }

    /// Whether the operator is told of `result` before the runbook goes on.
    pub fn noted(&self, result: &ExecutionResult) -> (told: bool)
        ensures
            told == self.remarks(result@),
    {
        match self {
            StatusRule::Tolerated => !result.success(),
            _ => false,
        }
    }
}

/// The two labels under which a question is put.
#[derive(Clone, Copy, Debug, PartialEq, Eq)]
pub enum Labels {
    /// "yes" and "no".
    YesNo,
    /// "execute" and "skip".
    ExecuteSkip,
}

impl Labels {
    /// The label that agrees, then the one that declines.
    pub fn texts(&self) -> (pair: Vec<&'static str>)
        ensures
            pair@.len() == 2,
            *self == Labels::YesNo ==> pair@[0]@ == "yes"@ && pair@[1]@ == "no"@,
            *self == Labels::ExecuteSkip ==> pair@[0]@ == "execute"@ && pair@[1]@ == "skip"@,
    {
        match self {
            Labels::YesNo => vec!["yes", "no"],
            Labels::ExecuteSkip => vec!["execute", "skip"],
        }
    }
}

/// A question with two choices and no command behind it.
pub struct Question {
    pub prompt: String,
    pub refusal: Refusal,
    /// The error with which the runbook ends where `refusal` says so.
    pub failure: String,
}

/// A command that runs as soon as the operator agrees, judged by its
/// exit status alone.
pub struct Direct {
    pub prompt: String,
    pub labels: Labels,
    pub cmd: Cmd,
    pub rule: StatusRule,
    pub refusal: Refusal,
    /// The error, or the remark, that goes with an exit status the rule
    /// speaks of.
    pub failure: String,
}

/// An address that is opened in a browser if the operator agrees.
pub struct Offer {
    pub prompt: String,
    pub url: String,
}

/// A file to write, with what goes into it.
pub struct Document {
    pub path: String,
    pub contents: String,
}

/// One stage of a runbook.
pub enum Stage {
    /// Text for the operator.
    Say(String),
    /// A wait that the operator ends.
    Pause(String),
    /// A step behind the confirmation gate, held against its expectation.
    Run(Step),
    /// A question.
    Ask(Question),
    /// A command behind a question, judged by its exit status.
    Direct(Direct),
    /// An address to open.
    Browse(Offer),
    /// A file to write.
    Write(Document),
    /// The end of the program, with a failing status.
    Halt,
}

/// A question as plain values.
pub struct QuestionView {
    pub prompt: Seq<char>,
    pub refusal: Refusal,
    pub failure: Seq<char>,
}

/// A command behind a question, as plain values.
pub struct DirectView {
    pub prompt: Seq<char>,
    pub labels: Labels,
    pub cmd: CmdView,
    pub rule: StatusRule,
    pub refusal: Refusal,
    pub failure: Seq<char>,
}

/// An offer as plain values.
pub struct OfferView {
    pub prompt: Seq<char>,
    pub url: Seq<char>,
}

/// A file to write, as plain values.
pub struct DocumentView {
    pub path: Seq<char>,
    pub contents: Seq<char>,
}

/// A stage as plain values.
pub enum StageView {
    Say(Seq<char>),
    Pause(Seq<char>),
    Run(StepView),
    Ask(QuestionView),
    Direct(DirectView),
    Browse(OfferView),
    Write(DocumentView),
    Halt,
}

impl View for Question {
    type V = QuestionView;

    open spec fn view(&self) -> QuestionView {
        QuestionView { prompt: self.prompt@, refusal: self.refusal, failure: self.failure@ }
    }
}

impl View for Direct {
    type V = DirectView;

    open spec fn view(&self) -> DirectView {
        DirectView {
            prompt: self.prompt@,
            labels: self.labels,
            cmd: self.cmd@,
            rule: self.rule,
            refusal: self.refusal,
            failure: self.failure@,
        }
    }
}

impl View for Offer {
    type V = OfferView;

    open spec fn view(&self) -> OfferView {
        OfferView { prompt: self.prompt@, url: self.url@ }
    }
}

impl View for Document {
    type V = DocumentView;

    open spec fn view(&self) -> DocumentView {
        DocumentView { path: self.path@, contents: self.contents@ }
    }
}

impl View for Stage {
    type V = StageView;

    open spec fn view(&self) -> StageView {
        match self {
            Stage::Say(text) => StageView::Say(text@),
            Stage::Pause(text) => StageView::Pause(text@),
            Stage::Run(step) => StageView::Run(step@),
            Stage::Ask(question) => StageView::Ask(question@),
            Stage::Direct(direct) => StageView::Direct(direct@),
            Stage::Browse(offer) => StageView::Browse(offer@),
            Stage::Write(document) => StageView::Write(document@),
            Stage::Halt => StageView::Halt,
        }
    }
}

impl StageView {
    /// Whether the stage can be put before the operator: a stage that
    /// runs a command names a program, and a step is well formed.
    pub open spec fn ready(self) -> bool {
        match self {
            StageView::Run(step) => step.valid(),
            StageView::Direct(direct) => direct.cmd.command.len() >= 1,
            _ => true,
        }
    }
}

impl Stage {
    /// Whether the stage can be put before the operator.
    pub fn ready(&self) -> (ok: bool)
        ensures
            ok == self@.ready(),
    {
        match self {
            Stage::Run(step) => step.valid(),
            Stage::Direct(direct) => direct.cmd.runnable(),
            _ => true,
        }
    }
}

/// Each stage of a list as plain values.
pub open spec fn stage_views(stages: Seq<Stage>) -> Seq<StageView> {
    stages.map_values(|stage: Stage| stage@)
}

/// The stage that runs `cmd` behind the confirmation gate and holds it
/// against `expect`.
pub open spec fn run_view(prompt: Seq<char>, cmd: CmdView, expect: ExpectView) -> StageView {
    StageView::Run(StepView { prompt, cmd, expect })
}

/// The stage that asks a question behind which no command stands.
pub open spec fn ask_view(prompt: Seq<char>, refusal: Refusal, failure: Seq<char>) -> StageView {
    StageView::Ask(QuestionView { prompt, refusal, failure })
}

/// The stage that runs `cmd` once the operator agrees and judges it by `rule`.
pub open spec fn direct_view(
    prompt: Seq<char>,
    labels: Labels,
    cmd: CmdView,
    rule: StatusRule,
    refusal: Refusal,
    failure: Seq<char>,
) -> StageView {
    StageView::Direct(DirectView { prompt, labels, cmd, rule, refusal, failure })
}

/// The stage that offers to open `url`.
pub open spec fn browse_view(prompt: Seq<char>, url: Seq<char>) -> StageView {
    StageView::Browse(OfferView { prompt, url })
}

/// The stage that writes `contents` to the file at `path`.
pub open spec fn write_view(path: Seq<char>, contents: Seq<char>) -> StageView {
    StageView::Write(DocumentView { path, contents })
}

/// The stage that shows `text`.
pub fn say(text: &str) -> (stage: Stage)
    ensures
        stage@ == StageView::Say(text@),
{
    Stage::Say(String::from_str(text))
}

/// The stage that waits, under the words `text`, until the operator goes on.
pub fn pause(text: &str) -> (stage: Stage)
    ensures
        stage@ == StageView::Pause(text@),
{
    Stage::Pause(String::from_str(text))
}

/// The stage that runs `cmd` behind the confirmation gate, asked for with
/// `prompt`, and holds it against `expect`.
pub fn run(prompt: &str, cmd: Cmd, expect: Expect) -> (stage: Stage)
    ensures
        stage@ == run_view(prompt@, cmd@, expect@),
{
    Stage::Run(Step { prompt: String::from_str(prompt), cmd, expect })
}

/// The stage that asks `prompt`; `refusal` says where a "no" leads, and
/// `failure` is the error that goes with it where it ends the runbook.
pub fn ask(prompt: &str, refusal: Refusal, failure: &str) -> (stage: Stage)
    ensures
        stage@ == ask_view(prompt@, refusal, failure@),
{
    Stage::Ask(
        Question { prompt: String::from_str(prompt), refusal, failure: String::from_str(failure) },
    )
}

/// The stage that asks `prompt` under `labels`, runs `cmd` on agreement
/// and judges its exit status by `rule`.
pub fn direct(
    prompt: &str,
    labels: Labels,
    cmd: Cmd,
    rule: StatusRule,
    refusal: Refusal,
    failure: &str,
) -> (stage: Stage)
    ensures
        stage@ == direct_view(prompt@, labels, cmd@, rule, refusal, failure@),
{
    Stage::Direct(
        Direct {
            prompt: String::from_str(prompt),
            labels,
            cmd,
            rule,
            refusal,
            failure: String::from_str(failure),
        },
    )
}

/// The stage that offers, with `prompt`, to open `url`.
pub fn browse(prompt: &str, url: &str) -> (stage: Stage)
    ensures
        stage@ == browse_view(prompt@, url@),
{
    Stage::Browse(Offer { prompt: String::from_str(prompt), url: String::from_str(url) })
}

/// The stage that writes `contents` to the file at `path`.
pub fn document(path: &str, contents: &str) -> (stage: Stage)
    ensures
        stage@ == write_view(path@, contents@),
{
    Stage::Write(Document { path: String::from_str(path), contents: String::from_str(contents) })
}

} // verus!
