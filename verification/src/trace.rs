//! Whole runs of a runbook: where a list of events leads, which commands
//! were started on the way, and which outcomes were warned of. With it the
//! rules that hold of every run: what a skip and an abort mean.

use vstd::prelude::*;
use crate::machine::{advance, after, begin, enter, event_views, next, start, Event, EventView, State};
use crate::runbook::{stage_views, Stage, StageView};
use crate::runner::{ExpectView, ResultView, RunError};

verus! {

/// The state that `events`, taken in order, lead to from `state`.
pub open spec fn run(stages: Seq<StageView>, state: State, events: Seq<EventView>) -> State
    decreases events.len(),
{
    if events.len() == 0 {
        state
    } else {
        run(stages, next(stages, state, events[0]), events.drop_first())
    }
}

/// The position of the stage whose command the move from `state` to
/// `following` has started, if it has started one.
pub open spec fn started(state: State, following: State) -> Option<usize> {
    match (state, following) {
        (State::Present(_), State::Spawn(at)) => Some(at),
        _ => None,
    }
}

/// The position of the stage whose outcome the move from `state` to
/// `following` has put the warning gate up for, if it has.
pub open spec fn alarmed(state: State, following: State) -> Option<usize> {
    match (state, following) {
        (State::Spawn(_), State::Warn(at)) => Some(at),
        _ => None,
    }
}

/// The positions of the stages whose commands are started while `events`
/// are taken from `state`, in the order in which they are started.
pub open spec fn spawned(stages: Seq<StageView>, state: State, events: Seq<EventView>) -> Seq<usize>
    decreases events.len(),
{
    if events.len() == 0 {
        Seq::empty()
    } else {
        let following = next(stages, state, events[0]);
        let rest = spawned(stages, following, events.drop_first());
        match started(state, following) {
            Some(at) => seq![at] + rest,
            None => rest,
        }
    }
}

/// The positions of the stages whose outcome is warned of while `events`
/// are taken from `state`, in the order of the warnings.
pub open spec fn warnings(stages: Seq<StageView>, state: State, events: Seq<EventView>) -> Seq<usize>
    decreases events.len(),
{
    if events.len() == 0 {
        Seq::empty()
    } else {
        let following = next(stages, state, events[0]);
        let rest = warnings(stages, following, events.drop_first());
        match alarmed(state, following) {
            Some(at) => seq![at] + rest,
            None => rest,
        }
    }
}

/// What a run came to.
pub struct Trace {
    /// The state after the last event.
    pub end: State,
    /// The stages whose commands were started, in order.
    pub spawned: Vec<usize>,
    /// The stages whose outcome was warned of, in order.
    pub warned: Vec<usize>,
}

/// Takes a runbook from its beginning through `events`, as a driver would
/// that met exactly these answers and results, and records what it would
/// have started and warned of. Nothing is run.
pub fn replay(stages: &Vec<Stage>, events: &Vec<Event>) -> (trace: Trace)
    ensures
        trace.end == run(stage_views(stages@), begin(stage_views(stages@)), event_views(events@)),
        trace.spawned@ == spawned(
            stage_views(stages@),
            begin(stage_views(stages@)),
            event_views(events@),
        ),
        trace.warned@ == warnings(
            stage_views(stages@),
            begin(stage_views(stages@)),
            event_views(events@),
        ),
{
    let ghost plan = stage_views(stages@);
    let ghost all = event_views(events@);
    let ghost first = begin(plan);
    let mut state = start(stages);
    let mut started_at: Vec<usize> = Vec::new();
    let mut warned_at: Vec<usize> = Vec::new();
    let mut k: usize = 0;
    assert(all.skip(0) == all);
    while k < events.len()
        invariant
            k <= events.len(),
            plan == stage_views(stages@),
            all == event_views(events@),
            first == begin(plan),
            run(plan, first, all) == run(plan, state, all.skip(k as int)),
            spawned(plan, first, all) == started_at@ + spawned(plan, state, all.skip(k as int)),
            warnings(plan, first, all) == warned_at@ + warnings(plan, state, all.skip(k as int)),
        decreases events.len() - k,
    {
        let following = advance(stages, state, &events[k]);
        proof {
            let left = all.skip(k as int);
            assert(left[0] == events@[k as int]@);
            assert(left.drop_first() == all.skip(k + 1));
        }
        let ghost before_spawned = started_at@;
        let ghost before_warned = warned_at@;
        match (state, following) {
            (State::Present(_), State::Spawn(at)) => {
                started_at.push(at);
                assert(started_at@ + spawned(plan, following, all.skip(k + 1)) == before_spawned + (
                seq![at] + spawned(plan, following, all.skip(k + 1))));
            },
            (State::Spawn(_), State::Warn(at)) => {
                warned_at.push(at);
                assert(warned_at@ + warnings(plan, following, all.skip(k + 1)) == before_warned + (
                seq![at] + warnings(plan, following, all.skip(k + 1))));
            },
            _ => {},
        }
        state = following;
        k = k + 1;
    }
    assert(all.skip(k as int).len() == 0);
    assert(started_at@ + Seq::<usize>::empty() == started_at@);
    assert(warned_at@ + Seq::<usize>::empty() == warned_at@);
    Trace { end: state, spawned: started_at, warned: warned_at }
}

/// A run that is over stays over: whatever is reported afterwards, the
/// state does not change, no command is started and no warning is raised.
pub proof fn law_final_state_stays(stages: Seq<StageView>, state: State, events: Seq<EventView>)
    requires
        state.is_final(),
    ensures
        run(stages, state, events) == state,
        spawned(stages, state, events) == Seq::<usize>::empty(),
        warnings(stages, state, events) == Seq::<usize>::empty(),
    decreases events.len(),
{
    if events.len() > 0 {
        law_final_state_stays(stages, state, events.drop_first());
    }
}

/// The least position at which a command can still be started from `state`.
pub open spec fn reach(stages: Seq<StageView>, state: State) -> int {
    match state {
        State::Present(at) => at as int,
        State::Spawn(at) => at + 1,
        State::Warn(at) => at + 1,
        State::Remark(at) => at + 1,
        _ => stages.len() as int,
    }
}

/// The runbook only moves forward: no event takes it back to a stage that
/// is behind.
pub proof fn lemma_moves_forward(stages: Seq<StageView>, state: State, event: EventView)
    requires
        stages.len() <= usize::MAX,
        reach(stages, state) <= stages.len(),
    ensures
        reach(stages, state) <= reach(stages, next(stages, state, event)) <= stages.len(),
        started(state, next(stages, state, event)) matches Some(at) ==> at == reach(stages, state),
{
}

/// Every command that a run starts belongs to a stage that was not yet
/// behind when the run set out.
pub proof fn lemma_spawned_ahead(stages: Seq<StageView>, state: State, events: Seq<EventView>)
    requires
        stages.len() <= usize::MAX,
        reach(stages, state) <= stages.len(),
    ensures
        forall|j: int|
            0 <= j < spawned(stages, state, events).len() ==> reach(stages, state) <= (
            #[trigger] spawned(stages, state, events)[j]) < stages.len(),
    decreases events.len(),
{
    if events.len() > 0 {
        let following = next(stages, state, events[0]);
        let rest = spawned(stages, following, events.drop_first());
        lemma_moves_forward(stages, state, events[0]);
        lemma_spawned_ahead(stages, following, events.drop_first());
        assert forall|j: int| 0 <= j < spawned(stages, state, events).len() implies reach(
            stages,
            state,
        ) <= (#[trigger] spawned(stages, state, events)[j]) < stages.len() by {
            match started(state, following) {
                Some(at) => {
                    if j > 0 {
                        assert(spawned(stages, state, events)[j] == rest[j - 1]);
                    }
                },
                None => {
                    assert(spawned(stages, state, events)[j] == rest[j]);
                },
            }
        }
    }
}

/// However long a run goes on, it never comes back to a stage that was
/// behind when it set out.
pub proof fn lemma_run_moves_forward(stages: Seq<StageView>, state: State, events: Seq<EventView>)
    requires
        stages.len() <= usize::MAX,
        reach(stages, state) <= stages.len(),
    ensures
        reach(stages, state) <= reach(stages, run(stages, state, events)) <= stages.len(),
    decreases events.len(),
{
    if events.len() > 0 {
        lemma_moves_forward(stages, state, events[0]);
        lemma_run_moves_forward(stages, next(stages, state, events[0]), events.drop_first());
    }
}

/// Each gate is passed once: when the operator has picked one of the
/// choices that a step's confirmation gate offers, no later event puts
/// that step before the operator again.
pub proof fn law_gate_is_passed_once(
    stages: Seq<StageView>,
    at: usize,
    pick: usize,
    later: Seq<EventView>,
)
    requires
        stages.len() <= usize::MAX,
        at < stages.len(),
        stages[at as int] is Run,
        pick < 3,
    ensures
        run(stages, State::Present(at), seq![EventView::Chosen(pick)] + later) != State::Present(
            at,
        ),
{
    let events = seq![EventView::Chosen(pick)] + later;
    assert(events.drop_first() == later);
    let following = next(stages, State::Present(at), EventView::Chosen(pick));
    lemma_moves_forward(stages, State::Present(at), EventView::Chosen(pick));
    assert(reach(stages, following) > at);
    lemma_run_moves_forward(stages, following, later);
}

/// The mismatch gate is put up only for a step whose process has ended
/// in a way that its expectation does not allow.
pub proof fn law_warning_only_on_mismatch(stages: Seq<StageView>, state: State, event: EventView)
    requires
        alarmed(state, next(stages, state, event)) is Some,
    ensures
        state == State::Spawn(alarmed(state, next(stages, state, event))->0),
        alarmed(state, next(stages, state, event))->0 < stages.len(),
        stages[alarmed(state, next(stages, state, event))->0 as int] matches StageView::Run(step)
            && event matches EventView::Exited(result) && !step.expect.allows(result),
{
}

/// Skipping a step at its gate starts no process, then or later, and
/// leaves the runbook where it would stand had the step run and done what
/// was expected of it.
pub proof fn law_skip_starts_nothing(
    stages: Seq<StageView>,
    at: usize,
    result: ResultView,
    later: Seq<EventView>,
)
    requires
        stages.len() <= usize::MAX,
        at < stages.len(),
        stages[at as int] is Run,
        stages[at as int].ready(),
        stages[at as int]->Run_0.expect.allows(result),
    ensures
        next(stages, State::Present(at), EventView::Chosen(2)) == after(stages, at),
        !(next(stages, State::Present(at), EventView::Chosen(2)) is Spawn),
        run(stages, State::Present(at), seq![EventView::Chosen(0), EventView::Exited(result)])
            == after(stages, at),
        run(stages, State::Present(at), seq![EventView::Chosen(2)] + later) == run(
            stages,
            State::Present(at),
            seq![EventView::Chosen(0), EventView::Exited(result)] + later,
        ),
        !spawned(stages, State::Present(at), seq![EventView::Chosen(2)] + later).contains(at),
{
    let here = State::Present(at);
    let skip = seq![EventView::Chosen(2)] + later;
    let done = seq![EventView::Chosen(0), EventView::Exited(result)];
    let through = done + later;
    assert(skip.drop_first() == later);
    assert(through.drop_first() == seq![EventView::Exited(result)] + later);
    assert(through.drop_first().drop_first() == later);
    assert(done.drop_first() == seq![EventView::Exited(result)]);
    assert(done.drop_first().drop_first() == Seq::<EventView>::empty());
    reveal_with_fuel(run, 3);
    reveal_with_fuel(spawned, 2);
    lemma_moves_forward(stages, here, EventView::Chosen(2));
    lemma_spawned_ahead(stages, after(stages, at), later);
    assert(spawned(stages, here, skip) == spawned(stages, after(stages, at), later));
    assert(reach(stages, after(stages, at)) > at);
}

/// Choosing to exit, at the confirmation gate of a step or at the mismatch
/// gate after it, ends the program at once with a failing status:
/// whatever is reported afterwards, nothing is started any more, in this
/// runbook or in one that was to follow it.
pub proof fn law_abort_ends_all(stages: Seq<StageView>, at: usize, later: Seq<EventView>)
    requires
        at < stages.len(),
        stages[at as int] is Run,
        stages[at as int].ready(),
    ensures
        next(stages, State::Present(at), EventView::Chosen(1)) == State::Aborted,
        next(stages, State::Warn(at), EventView::Chosen(1)) == State::Aborted,
        State::Aborted.status() == Some(1i32),
        run(stages, State::Present(at), seq![EventView::Chosen(1)] + later) == State::Aborted,
        run(stages, State::Warn(at), seq![EventView::Chosen(1)] + later) == State::Aborted,
        spawned(stages, State::Present(at), seq![EventView::Chosen(1)] + later) == Seq::<
            usize,
        >::empty(),
        spawned(stages, State::Warn(at), seq![EventView::Chosen(1)] + later) == Seq::<
            usize,
        >::empty(),
{
    let exit = seq![EventView::Chosen(1)] + later;
    assert(exit.drop_first() == later);
    law_final_state_stays(stages, State::Aborted, later);
}

/// Going on at the mismatch gate leaves the
/// runbook where it would stand had the outcome been the expected one.
pub proof fn law_continue_absorbs_mismatch(stages: Seq<StageView>, at: usize)
    requires
        at < stages.len(),
    ensures
        next(stages, State::Warn(at), EventView::Chosen(0)) == after(stages, at),
{
}

/// A stage is put before the operator only if it is well formed: a
/// malformed one ends the runbook before anything of it is shown.
pub proof fn law_malformed_stage_is_not_shown(
    stages: Seq<StageView>,
    state: State,
    event: EventView,
    at: usize,
)
    requires
        next(stages, state, event) == State::Present(at),
        state != State::Present(at),
    ensures
        at < stages.len(),
        stages[at as int].ready(),
        at < stages.len() && !stages[at as int].ready() ==> enter(stages, at) == State::Failed(
            at,
            RunError::InvalidStep,
        ),
{
}

/// A process that could not be started ends its stage with an error at
/// once: no mismatch gate is put up, for there is no outcome to judge.
pub proof fn law_spawn_failure_is_final(stages: Seq<StageView>, at: usize)
    requires
        at < stages.len(),
        stages[at as int] is Run || stages[at as int] is Direct,
    ensures
        next(stages, State::Spawn(at), EventView::Failed) == State::Failed(
            at,
            RunError::SpawnFailed,
        ),
        next(stages, State::Spawn(at), EventView::Failed).is_final(),
{
}

/// The exit code alone decides the four expectations that read no output:
/// success asks for zero, failure for anything else, a given code for
/// that code, and the last of them for nothing.
pub proof fn law_exit_code_decides(code: i32, wanted: i32, output: Option<Seq<u8>>)
    ensures
        ExpectView::Success.allows(ResultView { code: Some(code), output }) == (code == 0),
        ExpectView::Failure.allows(ResultView { code: Some(code), output }) == (code != 0),
        ExpectView::Code(wanted).allows(ResultView { code: Some(code), output }) == (code
            == wanted),
        ExpectView::Any.allows(ResultView { code: Some(code), output }),
        !ExpectView::Code(wanted).allows(ResultView { code: None, output }),
{
}

} // verus!
