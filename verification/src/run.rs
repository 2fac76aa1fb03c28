//! Whole runs of the router: which handlers a pass asks, in which order, and how
//! it ends, when every handler's answer is known beforehand.
//!
//! A run is what the caller of `Walk` or `Dispatch` sees when it follows every
//! step and answers each `Invoke` with the answer of the handler named.

use crate::handler::{EventKind, Module, Outcome, Position, Process};
use crate::router::{
    comes_after, lemma_next_match, next_match, offers, searched, Dispatch,
    DispatchResult, DispatchStep, Pass, PassResult, Walk, WalkState, WalkStep,
};
use vstd::prelude::*;

verus! {

/// A finished pass: the handlers that were asked, in the order in which they were
/// asked, and the result.
pub struct PassRun {
    pub asked: Seq<Position>,
    pub result: PassResult,
}

/// The first part of the measure by which a pass draws to its end.
pub open spec fn modules_left(modules: Seq<Module>, state: WalkState) -> int {
    match state {
        WalkState::Fresh => modules.len() as int + 1,
        WalkState::Waiting(position) => if position.module < modules.len() {
            modules.len() - position.module
        } else {
            modules.len() as int + 1
        },
        WalkState::Finished => 0,
    }
}

/// The second part of that measure.
pub open spec fn handlers_left(modules: Seq<Module>, state: WalkState) -> int {
    match state {
        WalkState::Waiting(position) => if position.within(modules) {
            modules[position.module as int].handlers.len() - position.handler
        } else {
            0
        },
        _ => 0,
    }
}

/// The third part of that measure.
pub open spec fn calls_left(step: WalkStep) -> int {
    if step is Invoke {
        1
    } else {
        0
    }
}

/// The rest of a pass that stands at `walk` and has just been told `step`, when
/// the handler at each position answers `answers(position)`.
pub open spec fn run_from(
    modules: Seq<Module>,
    answers: spec_fn(Position) -> Outcome,
    walk: Walk,
    step: WalkStep,
) -> PassRun
    decreases modules_left(modules, walk.state), handlers_left(modules, walk.state), calls_left(
        step,
    ),
{
    match step {
        WalkStep::Invoke(position) => {
            let next = walk.resumed(modules, answers(position));
            proof {
                if let WalkState::Waiting(last) = walk.state {
                    lemma_next_match(modules, walk.capability, Some(last));
                }
            }
            let rest = run_from(modules, answers, next.0, next.1);
            PassRun { asked: seq![position] + rest.asked, result: rest.result }
        },
        WalkStep::Done(result) => PassRun { asked: Seq::empty(), result },
        WalkStep::Idle => PassRun { asked: Seq::empty(), result: PassResult::Unclaimed },
    }
}

/// The whole pass for `capability`.
pub open spec fn run_pass(
    modules: Seq<Module>,
    capability: Process,
    answers: spec_fn(Position) -> Outcome,
) -> PassRun {
    let opened = (Walk { capability, state: WalkState::Fresh }).started(modules);
    run_from(modules, answers, opened.0, opened.1)
}

/// Whether a pass for `capability` gets as far as the handler at `position`: the
/// handler declares the capability, and no handler before it that declares the
/// capability claims the event or fails on it.
pub open spec fn reached(
    modules: Seq<Module>,
    capability: Process,
    answers: spec_fn(Position) -> Outcome,
    position: Position,
) -> bool {
    &&& offers(modules, capability, position)
    &&& forall|earlier: Position|
        #[trigger] offers(modules, capability, earlier) && earlier.precedes(position)
            ==> !answers(earlier).decisive()
}

/// Whether the positions of `asked` stand in evaluation order, none twice.
pub open spec fn in_order(asked: Seq<Position>) -> bool {
    forall|i: int, j: int| 0 <= i < j < asked.len() ==> (#[trigger] asked[i]).precedes(#[trigger] asked[j])
}

/// The rest of a pass that has heard from every handler up to `after`, and from
/// none behind it.
pub open spec fn run_behind(
    modules: Seq<Module>,
    capability: Process,
    answers: spec_fn(Position) -> Outcome,
    after: Option<Position>,
) -> PassRun {
    let next = searched(modules, capability, after);
    run_from(modules, answers, next.0, next.1)
}

/// The state of a pass whose last answer came from `after`.
pub open spec fn state_behind(after: Option<Position>) -> WalkState {
    match after {
        None => WalkState::Fresh,
        Some(last) => WalkState::Waiting(last),
    }
}

proof fn lemma_run_behind_unfold(
    modules: Seq<Module>,
    capability: Process,
    answers: spec_fn(Position) -> Outcome,
    after: Option<Position>,
)
    ensures
        match next_match(modules, capability, after) {
            None => {
                &&& run_behind(modules, capability, answers, after).asked =~= Seq::empty()
                &&& run_behind(modules, capability, answers, after).result
                    == PassResult::Unclaimed
            },
            Some(position) => match answers(position) {
                Outcome::NotClaimed => {
                    let rest = run_behind(modules, capability, answers, Some(position));
                    &&& run_behind(modules, capability, answers, after).asked =~= seq![position]
                        + rest.asked
                    &&& run_behind(modules, capability, answers, after).result == rest.result
                },
                Outcome::Claimed => {
                    &&& run_behind(modules, capability, answers, after).asked =~= seq![position]
                    &&& run_behind(modules, capability, answers, after).result
                        == PassResult::Claimed(position)
                },
                Outcome::Failed(_) => {
                    &&& run_behind(modules, capability, answers, after).asked =~= seq![position]
                    &&& run_behind(modules, capability, answers, after).result
                        == PassResult::Failed(position)
                },
            },
        },
{
    reveal_with_fuel(run_from, 3);
}

proof fn lemma_run_behind(
    modules: Seq<Module>,
    capability: Process,
    answers: spec_fn(Position) -> Outcome,
    after: Option<Position>,
)
    requires
        forall|earlier: Position|
            #[trigger] offers(modules, capability, earlier) && !comes_after(after, earlier)
                ==> !answers(earlier).decisive(),
    ensures
        in_order(run_behind(modules, capability, answers, after).asked),
        forall|i: int|
            0 <= i < run_behind(modules, capability, answers, after).asked.len() ==> {
                &&& comes_after(
                    after,
                    #[trigger] run_behind(modules, capability, answers, after).asked[i],
                )
                &&& reached(
                    modules,
                    capability,
                    answers,
                    run_behind(modules, capability, answers, after).asked[i],
                )
            },
        forall|position: Position|
            #[trigger] reached(modules, capability, answers, position) && comes_after(
                after,
                position,
            ) ==> run_behind(modules, capability, answers, after).asked.contains(position),
        match run_behind(modules, capability, answers, after).result {
            PassResult::Unclaimed => forall|any: Position|
                #[trigger] offers(modules, capability, any) ==> !answers(any).decisive(),
            PassResult::Claimed(position) => {
                &&& run_behind(modules, capability, answers, after).asked.len() > 0
                &&& run_behind(modules, capability, answers, after).asked.last() == position
                &&& answers(position) is Claimed
            },
            PassResult::Failed(position) => {
                &&& run_behind(modules, capability, answers, after).asked.len() > 0
                &&& run_behind(modules, capability, answers, after).asked.last() == position
                &&& answers(position) is Failed
            },
        },
    decreases
            modules_left(modules, state_behind(after)),
            handlers_left(modules, state_behind(after)),
{
    let run = run_behind(modules, capability, answers, after);
    lemma_run_behind_unfold(modules, capability, answers, after);
    lemma_next_match(modules, capability, after);
    if let Some(first) = next_match(modules, capability, after) {
        assert(reached(modules, capability, answers, first));
        if answers(first).decisive() {
            assert forall|position: Position| #[trigger]
                reached(modules, capability, answers, position) && comes_after(
                    after,
                    position,
                ) implies run.asked.contains(position) by {
                assert(run.asked[0] == position);
            }
        } else {
            let rest = run_behind(modules, capability, answers, Some(first));
            lemma_run_behind(modules, capability, answers, Some(first));
            assert forall|position: Position| #[trigger]
                reached(modules, capability, answers, position) && comes_after(
                    after,
                    position,
                ) implies run.asked.contains(position) by {
                if position == first {
                    assert(run.asked[0] == position);
                } else {
                    let at = choose|at: int| 0 <= at < rest.asked.len() && rest.asked[at] == position;
                    assert(run.asked[at + 1] == position);
                }
            }
        }
    }
}

/// A pass asks handlers in evaluation order and asks none twice.
pub proof fn lemma_pass_keeps_order(
    modules: Seq<Module>,
    capability: Process,
    answers: spec_fn(Position) -> Outcome,
)
    ensures
        in_order(run_pass(modules, capability, answers).asked),
{
    lemma_run_behind(modules, capability, answers, None);
}

/// A pass asks exactly the handlers that declare its capability and have no
/// handler before them that declares it and claims the event or fails: the
/// first such answer ends the pass, and every handler behind it is left alone.
pub proof fn lemma_pass_asks_until_first_decisive(
    modules: Seq<Module>,
    capability: Process,
    answers: spec_fn(Position) -> Outcome,
)
    ensures
        forall|position: Position|
            run_pass(modules, capability, answers).asked.contains(position) <==> #[trigger] reached(
                modules,
                capability,
                answers,
                position,
            ),
{
    lemma_run_behind(modules, capability, answers, None);
}

/// How a pass ends. It is unclaimed exactly when no handler that declares the
/// capability claims or fails. Otherwise its result names the earliest such
/// handler, which is the last one asked, and tells a claim from a failure.
pub proof fn lemma_pass_result(
    modules: Seq<Module>,
    capability: Process,
    answers: spec_fn(Position) -> Outcome,
)
    ensures
        run_pass(modules, capability, answers).result is Unclaimed <==> forall|any: Position|
            #[trigger] offers(modules, capability, any) ==> !answers(any).decisive(),
        forall|position: Position|
            #[trigger] reached(modules, capability, answers, position) && answers(
                position,
            ).decisive() ==> {
                &&& run_pass(modules, capability, answers).result.decided_at() == Some(position)
                &&& run_pass(modules, capability, answers).asked.last() == position
                &&& (run_pass(modules, capability, answers).result is Claimed <==> answers(
                    position,
                ) is Claimed)
            },
        run_pass(modules, capability, answers).result.decided_at() matches Some(position)
            ==> reached(modules, capability, answers, position) && answers(position).decisive(),
{
    lemma_run_behind(modules, capability, answers, None);
}

/// A finished dispatch: the handlers that were asked, each with the pass that
/// asked it, in the order in which they were asked, and the result.
pub struct DispatchRun {
    pub asked: Seq<(Pass, Position)>,
    pub result: DispatchResult,
}

/// The passes that a dispatch has still to open.
pub open spec fn passes_left(pass: Pass) -> int {
    match pass {
        Pass::Specific => 1,
        Pass::Update => 0,
    }
}

/// The rest of a dispatch that stands at `dispatch` and has just been told `step`,
/// when the handler at each position answers `answers(position)`.
pub open spec fn dispatch_from(
    modules: Seq<Module>,
    answers: spec_fn(Position) -> Outcome,
    dispatch: Dispatch,
    step: DispatchStep,
) -> DispatchRun
    decreases
            passes_left(dispatch.pass),
            modules_left(modules, dispatch.walk.state),
            handlers_left(modules, dispatch.walk.state),
            (if step is Invoke {
                1int
            } else {
                0int
            }),
{
    match step {
        DispatchStep::Invoke { pass, position } => {
            let next = dispatch.resumed(modules, answers(position));
            proof {
                if let WalkState::Waiting(last) = dispatch.walk.state {
                    lemma_next_match(modules, dispatch.walk.capability, Some(last));
                }
                lemma_next_match(modules, Process::UpdateProcess, None);
            }
            let rest = dispatch_from(modules, answers, next.0, next.1);
            DispatchRun { asked: seq![(pass, position)] + rest.asked, result: rest.result }
        },
        DispatchStep::Done(result) => DispatchRun { asked: Seq::empty(), result },
        DispatchStep::Idle => DispatchRun {
            asked: Seq::empty(),
            result: DispatchResult { specific: dispatch.specific, update: PassResult::Unclaimed },
        },
    }
}

/// The whole dispatch of an event of `kind`.
pub open spec fn run_dispatch(
    modules: Seq<Module>,
    kind: EventKind,
    answers: spec_fn(Position) -> Outcome,
) -> DispatchRun {
    let opened = Dispatch::fresh(kind).started(modules);
    dispatch_from(modules, answers, opened.0, opened.1)
}

/// The handlers of `asked`, each marked as asked by `pass`.
pub open spec fn asked_by(pass: Pass, asked: Seq<Position>) -> Seq<(Pass, Position)> {
    Seq::new(asked.len(), |i: int| (pass, asked[i]))
}

/// Whether `step` is what a pass that stands at `walk` has just been told.
pub open spec fn in_turn(walk: Walk, step: WalkStep) -> bool {
    match step {
        WalkStep::Invoke(position) => walk.state == WalkState::Waiting(position),
        WalkStep::Done(_) => walk.state == WalkState::Finished,
        WalkStep::Idle => false,
    }
}

proof fn lemma_second_pass(
    modules: Seq<Module>,
    answers: spec_fn(Position) -> Outcome,
    dispatch: Dispatch,
    walk: Walk,
    step: WalkStep,
)
    requires
        dispatch.pass == Pass::Update,
        in_turn(walk, step),
    ensures
        ({
            let settled = dispatch.settled(modules, walk, step);
            let run = dispatch_from(modules, answers, settled.0, settled.1);
            let pass = run_from(modules, answers, walk, step);
            &&& run.asked =~= asked_by(Pass::Update, pass.asked)
            &&& run.result == DispatchResult { specific: dispatch.specific, update: pass.result }
        }),
    decreases modules_left(modules, walk.state), handlers_left(modules, walk.state), calls_left(
        step,
    ),
{
    let settled = dispatch.settled(modules, walk, step);
    match step {
        WalkStep::Invoke(position) => {
            lemma_next_match(modules, walk.capability, Some(position));
            let next = walk.resumed(modules, answers(position));
            assert(settled.0.resumed(modules, answers(position)) == settled.0.settled(
                modules,
                next.0,
                next.1,
            ));
            assert(settled.0.settled(modules, next.0, next.1) == dispatch.settled(
                modules,
                next.0,
                next.1,
            ));
            lemma_second_pass(modules, answers, dispatch, next.0, next.1);
            let rest = run_from(modules, answers, next.0, next.1);
            assert(seq![(Pass::Update, position)] + asked_by(Pass::Update, rest.asked)
                =~= asked_by(Pass::Update, seq![position] + rest.asked));
        },
        _ => {},
    }
}

proof fn lemma_first_pass(
    modules: Seq<Module>,
    answers: spec_fn(Position) -> Outcome,
    dispatch: Dispatch,
    walk: Walk,
    step: WalkStep,
)
    requires
        dispatch.pass == Pass::Specific,
        in_turn(walk, step),
    ensures
        ({
            let settled = dispatch.settled(modules, walk, step);
            let run = dispatch_from(modules, answers, settled.0, settled.1);
            let first = run_from(modules, answers, walk, step);
            let second = run_pass(modules, Process::UpdateProcess, answers);
            &&& run.asked =~= asked_by(Pass::Specific, first.asked) + asked_by(
                Pass::Update,
                second.asked,
            )
            &&& run.result == DispatchResult { specific: first.result, update: second.result }
        }),
    decreases modules_left(modules, walk.state), handlers_left(modules, walk.state), calls_left(
        step,
    ),
{
    let settled = dispatch.settled(modules, walk, step);
    match step {
        WalkStep::Invoke(position) => {
            lemma_next_match(modules, walk.capability, Some(position));
            let next = walk.resumed(modules, answers(position));
            assert(settled.0.resumed(modules, answers(position)) == settled.0.settled(
                modules,
                next.0,
                next.1,
            ));
            assert(settled.0.settled(modules, next.0, next.1) == dispatch.settled(
                modules,
                next.0,
                next.1,
            ));
            lemma_first_pass(modules, answers, dispatch, next.0, next.1);
            let rest = run_from(modules, answers, next.0, next.1);
            let second = run_pass(modules, Process::UpdateProcess, answers);
            assert(seq![(Pass::Specific, position)] + (asked_by(Pass::Specific, rest.asked)
                + asked_by(Pass::Update, second.asked)) =~= asked_by(
                Pass::Specific,
                seq![position] + rest.asked,
            ) + asked_by(Pass::Update, second.asked));
        },
        WalkStep::Done(result) => {
            let opened = searched(modules, Process::UpdateProcess, None);
            let moved = Dispatch {
                kind: dispatch.kind,
                pass: Pass::Update,
                walk: opened.0,
                specific: result,
            };
            lemma_next_match(modules, Process::UpdateProcess, None);
            lemma_second_pass(modules, answers, moved, opened.0, opened.1);
            let second = run_pass(modules, Process::UpdateProcess, answers);
            assert(asked_by(Pass::Specific, Seq::<Position>::empty()) + asked_by(
                Pass::Update,
                second.asked,
            ) =~= asked_by(Pass::Update, second.asked));
        },
        WalkStep::Idle => {},
    }
}

/// The two passes of a dispatch do not touch each other. The dispatch asks what
/// the pass for the event's kind asks, then what the pass for
/// `Process::UpdateProcess` asks, and its result holds the result of each: so a
/// handler that receives every event is asked even where a handler for the kind
/// has claimed the event or failed on it before, wherever the two stand.
pub proof fn lemma_passes_are_independent(
    modules: Seq<Module>,
    kind: EventKind,
    answers: spec_fn(Position) -> Outcome,
)
    ensures
        run_dispatch(modules, kind, answers).asked == asked_by(
            Pass::Specific,
            run_pass(modules, Process::specific(kind), answers).asked,
        ) + asked_by(Pass::Update, run_pass(modules, Process::UpdateProcess, answers).asked),
        run_dispatch(modules, kind, answers).result == (DispatchResult {
            specific: run_pass(modules, Process::specific(kind), answers).result,
            update: run_pass(modules, Process::UpdateProcess, answers).result,
        }),
{
    let fresh = Dispatch::fresh(kind);
    let opened = fresh.walk.started(modules);
    lemma_next_match(modules, Process::specific(kind), None);
    lemma_first_pass(modules, answers, fresh, opened.0, opened.1);
}

/// No handler is asked twice for one event: the pass for the event's kind asks
/// only handlers of that capability, the other pass only handlers of
/// `Process::UpdateProcess`.
pub proof fn lemma_passes_are_disjoint(
    modules: Seq<Module>,
    kind: EventKind,
    answers: spec_fn(Position) -> Outcome,
)
    ensures
        forall|position: Position|
            !(#[trigger] run_pass(modules, Process::specific(kind), answers).asked.contains(
                position,
            ) && run_pass(modules, Process::UpdateProcess, answers).asked.contains(position)),
{
    lemma_pass_asks_until_first_decisive(modules, Process::specific(kind), answers);
    lemma_pass_asks_until_first_decisive(modules, Process::UpdateProcess, answers);
    assert forall|position: Position|
        !(#[trigger] run_pass(modules, Process::specific(kind), answers).asked.contains(position)
            && run_pass(modules, Process::UpdateProcess, answers).asked.contains(
            position,
        )) by {
        if run_pass(modules, Process::specific(kind), answers).asked.contains(position) {
            assert(reached(modules, Process::specific(kind), answers, position));
            assert(!reached(modules, Process::UpdateProcess, answers, position));
        }
    }
}

} // verus!
