//! The event router: one pass over the registry asks, in evaluation order, the
//! handlers that declare a given capability, and ends at the first that claims
//! the event or fails on it.
//!
//! The router never calls a handler. It names the next handler to ask and takes
//! its answer, so that the caller is free to wait for the handler's work.

use crate::handler::{capability_at, EventKind, Module, Outcome, Position, Process};
use vstd::prelude::*;

verus! {

/// How one pass over the registry ended.
#[derive(Clone, Copy, Debug, PartialEq, Eq, Structural)]
pub enum PassResult {
    /// Every handler that was asked left the event alone, or none was asked.
    Unclaimed,
    /// The handler at this position claimed the event.
    Claimed(Position),
    /// The handler at this position failed on the event.
    Failed(Position),
}

impl PassResult {
    /// The position of the handler that ended the pass, if one did.
    pub open spec fn decided_at(self) -> Option<Position> {
        match self {
            PassResult::Unclaimed => None,
            PassResult::Claimed(position) => Some(position),
            PassResult::Failed(position) => Some(position),
        }
    }

    /// Whether the pass ended on a handler that failed.
    pub fn is_failure(&self) -> (failed: bool)
        ensures
            failed == (*self is Failed),
    {
        match self {
            PassResult::Failed(_) => true,
            _ => false,
        }
    }

    /// The position of the handler that ended the pass, if one did.
    pub fn position(&self) -> (at: Option<Position>)
        ensures
            at == self.decided_at(),
    {
        match self {
            PassResult::Unclaimed => None,
            PassResult::Claimed(position) => Some(*position),
            PassResult::Failed(position) => Some(*position),
        }
    }
}

/// The names of the module and of the handler that ended a pass with `result`:
/// the diagnostic record of the pass. There is none where the pass was left
/// unclaimed, nor where `modules` holds no handler at the position named.
pub fn decided_by<'a>(modules: &'a Vec<Module>, result: &PassResult) -> (names: Option<
    (&'a String, &'a String),
>)
    ensures
        names is Some <==> (result.decided_at() is Some && result.decided_at()->0.within(
            modules@,
        )),
        names matches Some((module, handler)) ==> {
            let position = result.decided_at()->0;
            &&& *module == modules[position.module as int].id
            &&& *handler == modules[position.module as int].handlers[position.handler as int].id
        },
{
    match result.position() {
        Some(position) => {
            if position.module < modules.len() && position.handler
                < modules[position.module].handlers.len() {
                Some(
                    (
                        &modules[position.module].id,
                        &modules[position.module].handlers[position.handler].id,
                    ),
                )
            } else {
                None
            }
        },
        None => None,
    }
}

/// Whether the handler at `position` exists and declares `capability`.
pub open spec fn offers(modules: Seq<Module>, capability: Process, position: Position) -> bool {
    position.within(modules) && capability_at(modules, position) == capability
}

/// Whether `position` lies strictly behind the last handler asked.
pub open spec fn comes_after(after: Option<Position>, position: Position) -> bool {
    match after {
        None => true,
        Some(last) => last.precedes(position),
    }
}

/// Whether `position` is the earliest handler behind `after` that declares `capability`.
pub open spec fn is_next_match(
    modules: Seq<Module>,
    capability: Process,
    after: Option<Position>,
    position: Position,
) -> bool {
    &&& offers(modules, capability, position)
    &&& comes_after(after, position)
    &&& forall|other: Position|
        #[trigger] offers(modules, capability, other) && comes_after(after, other)
            ==> position.at_or_before(other)
}

/// The earliest handler behind `after` that declares `capability`, if there is one.
pub open spec fn next_match(
    modules: Seq<Module>,
    capability: Process,
    after: Option<Position>,
) -> Option<Position> {
    if exists|position: Position| is_next_match(modules, capability, after, position) {
        Some(choose|position: Position| is_next_match(modules, capability, after, position))
    } else {
        None
    }
}

/// There is at most one earliest handler.
pub proof fn lemma_next_match_unique(
    modules: Seq<Module>,
    capability: Process,
    after: Option<Position>,
    first: Position,
    second: Position,
)
    requires
        is_next_match(modules, capability, after, first),
        is_next_match(modules, capability, after, second),
    ensures
        first == second,
{
}

/// Among the handlers behind `after` that declare `capability`, one is the earliest.
proof fn lemma_earliest_exists(
    modules: Seq<Module>,
    capability: Process,
    after: Option<Position>,
    candidate: Position,
)
    requires
        offers(modules, capability, candidate),
        comes_after(after, candidate),
    ensures
        exists|position: Position| is_next_match(modules, capability, after, position),
    decreases candidate.module, candidate.handler,
{
    if forall|other: Position|
        #[trigger] offers(modules, capability, other) && comes_after(after, other)
            ==> candidate.at_or_before(other) {
        assert(is_next_match(modules, capability, after, candidate));
    } else {
        let earlier = choose|other: Position|
            #[trigger] offers(modules, capability, other) && comes_after(after, other)
                && !candidate.at_or_before(other);
        lemma_earliest_exists(modules, capability, after, earlier);
    }
}

/// What `next_match` returns: the earliest matching handler behind `after`, and
/// nothing exactly when no handler behind `after` declares `capability`.
pub proof fn lemma_next_match(modules: Seq<Module>, capability: Process, after: Option<Position>)
    ensures
        match next_match(modules, capability, after) {
            Some(position) => is_next_match(modules, capability, after, position),
            None => forall|other: Position|
                !(#[trigger] offers(modules, capability, other) && comes_after(after, other)),
        },
{
    if next_match(modules, capability, after) is None {
        assert forall|other: Position|
            !(#[trigger] offers(modules, capability, other) && comes_after(after, other)) by {
            if offers(modules, capability, other) && comes_after(after, other) {
                lemma_earliest_exists(modules, capability, after, other);
            }
        }
    }
}

/// Finds the earliest handler behind `after` that declares `capability`.
pub fn find_next(modules: &Vec<Module>, capability: Process, after: Option<Position>) -> (found:
    Option<Position>)
    ensures
        found == next_match(modules@, capability, after),
        found is Some ==> is_next_match(modules@, capability, after, found->0),
        found is None ==> forall|other: Position|
            !(#[trigger] offers(modules@, capability, other) && comes_after(after, other)),
{
    let mut module: usize = match after {
        Some(last) => last.module,
        None => 0,
    };
    let mut handler: usize = match after {
        Some(last) => last.handler,
        None => 0,
    };
    while module < modules.len()
        invariant
            forall|other: Position|
                #[trigger] offers(modules@, capability, other) && comes_after(after, other)
                    ==> !other.precedes(Position { module, handler }),
        decreases modules.len() - module,
    {
        let handlers = &modules[module].handlers;
        while handler < handlers.len()
            invariant
                module < modules.len(),
                handlers == &modules[module as int].handlers,
                forall|other: Position|
                    #[trigger] offers(modules@, capability, other) && comes_after(after, other)
                        ==> !other.precedes(Position { module, handler }),
            decreases handlers.len() - handler,
        {
            let here = Position { module, handler };
            let behind = match after {
                Some(last) => last.module < module || (last.module == module && last.handler
                    < handler),
                None => true,
            };
            if behind && handlers[handler].process == capability {
                proof {
                    assert(is_next_match(modules@, capability, after, here));
                    lemma_next_match(modules@, capability, after);
                    lemma_next_match_unique(
                        modules@,
                        capability,
                        after,
                        here,
                        next_match(modules@, capability, after)->0,
                    );
                }
                return Some(here);
            }
            handler = handler + 1;
        }
        module = module + 1;
        handler = 0;
    }
    proof {
        lemma_next_match(modules@, capability, after);
    }
    None
}

/// Where a pass stands.
#[derive(Clone, Copy, Debug, PartialEq, Eq, Structural)]
pub enum WalkState {
    /// No handler has been asked yet.
    Fresh,
    /// The handler at this position has been asked and has not answered yet.
    Waiting(Position),
    /// The pass is over.
    Finished,
}

/// One pass over the registry for one capability.
#[derive(Clone, Copy, Debug, PartialEq, Eq, Structural)]
pub struct Walk {
    pub capability: Process,
    pub state: WalkState,
}

/// What the caller of a pass does next.
#[derive(Clone, Copy, Debug, PartialEq, Eq, Structural)]
pub enum WalkStep {
    /// Offer the event to the handler at this position and bring back its answer.
    Invoke(Position),
    /// The pass is over, with this result.
    Done(PassResult),
    /// The call came out of turn; nothing has changed.
    Idle,
}

/// The state and step of a pass for `capability` that looks for its next handler
/// behind `after`.
pub open spec fn searched(modules: Seq<Module>, capability: Process, after: Option<Position>) -> (
    Walk,
    WalkStep,
) {
    match next_match(modules, capability, after) {
        Some(position) => (
            Walk { capability, state: WalkState::Waiting(position) },
            WalkStep::Invoke(position),
        ),
        None => (
            Walk { capability, state: WalkState::Finished },
            WalkStep::Done(PassResult::Unclaimed),
        ),
    }
}

impl Walk {
    /// The pass after `start`, and the step that `start` returns.
    pub open spec fn started(self, modules: Seq<Module>) -> (Walk, WalkStep) {
        match self.state {
            WalkState::Fresh => searched(modules, self.capability, None),
            WalkState::Waiting(position) => (self, WalkStep::Invoke(position)),
            WalkState::Finished => (self, WalkStep::Idle),
        }
    }

    /// The pass after `resume` with `outcome`, and the step that `resume` returns.
    pub open spec fn resumed(self, modules: Seq<Module>, outcome: Outcome) -> (Walk, WalkStep) {
        match self.state {
            WalkState::Waiting(position) => match outcome {
                Outcome::NotClaimed => searched(modules, self.capability, Some(position)),
                Outcome::Claimed => (
                    Walk { capability: self.capability, state: WalkState::Finished },
                    WalkStep::Done(PassResult::Claimed(position)),
                ),
                Outcome::Failed(_) => (
                    Walk { capability: self.capability, state: WalkState::Finished },
                    WalkStep::Done(PassResult::Failed(position)),
                ),
            },
            _ => (self, WalkStep::Idle),
        }
    }

    /// A pass for `capability` that has asked nobody yet.
    pub fn new(capability: Process) -> (walk: Walk)
        ensures
            walk == (Walk { capability, state: WalkState::Fresh }),
    {
        Walk { capability, state: WalkState::Fresh }
    }

    /// Whether the pass is over.
    pub fn is_finished(&self) -> (over: bool)
        ensures
            over == (self.state == WalkState::Finished),
    {
        match self.state {
            WalkState::Finished => true,
            _ => false,
        }
    }

    /// Opens the pass: names the first handler to ask, or ends the pass at once
    /// when no handler declares the capability. On a pass that waits for an
    /// answer it names the same handler again.
    pub fn start(&mut self, modules: &Vec<Module>) -> (step: WalkStep)
        ensures
            (*final(self), step) == old(self).started(modules@),
    {
        match self.state {
            WalkState::Fresh => self.search(modules, None),
            WalkState::Waiting(position) => WalkStep::Invoke(position),
            WalkState::Finished => WalkStep::Idle,
        }
    }

    /// Takes the answer of the handler that was asked last: the pass ends when the
    /// handler claimed the event or failed, and goes on to the next handler
    /// otherwise.
    pub fn resume(&mut self, modules: &Vec<Module>, outcome: Outcome) -> (step: WalkStep)
        ensures
            (*final(self), step) == old(self).resumed(modules@, outcome),
    {
        match self.state {
            WalkState::Waiting(position) => match outcome {
                Outcome::NotClaimed => self.search(modules, Some(position)),
                Outcome::Claimed => {
                    self.state = WalkState::Finished;
                    WalkStep::Done(PassResult::Claimed(position))
                },
                Outcome::Failed(_) => {
                    self.state = WalkState::Finished;
                    WalkStep::Done(PassResult::Failed(position))
                },
            },
            _ => WalkStep::Idle,
        }
    }

    fn search(&mut self, modules: &Vec<Module>, after: Option<Position>) -> (step: WalkStep)
        ensures
            (*final(self), step) == searched(modules@, old(self).capability, after),
    {
        match find_next(modules, self.capability, after) {
            Some(position) => {
                self.state = WalkState::Waiting(position);
                WalkStep::Invoke(position)
            },
            None => {
                self.state = WalkState::Finished;
                WalkStep::Done(PassResult::Unclaimed)
            },
        }
    }
}

/// The two passes that every event gets.
#[derive(Clone, Copy, Debug, PartialEq, Eq, Structural)]
pub enum Pass {
    /// The pass over the handlers that declare the capability of the event's own kind.
    Specific,
    /// The pass over the handlers that declare `Process::UpdateProcess`.
    Update,
}

/// How the dispatch of one event ended: the result of each of its two passes.
#[derive(Clone, Copy, Debug, PartialEq, Eq, Structural)]
pub struct DispatchResult {
    pub specific: PassResult,
    pub update: PassResult,
}

/// What the caller of a dispatch does next.
#[derive(Clone, Copy, Debug, PartialEq, Eq, Structural)]
pub enum DispatchStep {
    /// Offer the event to the handler at `position`, on behalf of `pass`, and
    /// bring back its answer.
    Invoke { pass: Pass, position: Position },
    /// Both passes are over.
    Done(DispatchResult),
    /// The call came out of turn; nothing has changed.
    Idle,
}

/// The dispatch of one event: the pass for its kind, then the pass for
/// `Process::UpdateProcess`, whatever the first pass came to.
#[derive(Clone, Copy, Debug, PartialEq, Eq, Structural)]
pub struct Dispatch {
    pub kind: EventKind,
    /// The pass that is under way.
    pub pass: Pass,
    /// The state of that pass.
    pub walk: Walk,
    /// The result of the first pass; `Unclaimed` until that pass is over.
    pub specific: PassResult,
}

impl Dispatch {
    /// The dispatch of an event of `kind` before anything was asked.
    pub open spec fn fresh(kind: EventKind) -> Dispatch {
        Dispatch {
            kind,
            pass: Pass::Specific,
            walk: Walk { capability: Process::specific(kind), state: WalkState::Fresh },
            specific: PassResult::Unclaimed,
        }
    }

    /// The dispatch and its step once the pass under way has moved to `walk` and
    /// produced `step`: when the first pass is over the second opens at once.
    pub open spec fn settled(self, modules: Seq<Module>, walk: Walk, step: WalkStep) -> (
        Dispatch,
        DispatchStep,
    ) {
        match step {
            WalkStep::Invoke(position) => (
                Dispatch { walk, ..self },
                DispatchStep::Invoke { pass: self.pass, position },
            ),
            WalkStep::Idle => (Dispatch { walk, ..self }, DispatchStep::Idle),
            WalkStep::Done(result) => match self.pass {
                Pass::Update => (
                    Dispatch { walk, ..self },
                    DispatchStep::Done(DispatchResult { specific: self.specific, update: result }),
                ),
                Pass::Specific => {
                    let second = searched(modules, Process::UpdateProcess, None);
                    let moved = Dispatch {
                        kind: self.kind,
                        pass: Pass::Update,
                        walk: second.0,
                        specific: result,
                    };
                    match second.1 {
                        WalkStep::Invoke(position) => (
                            moved,
                            DispatchStep::Invoke { pass: Pass::Update, position },
                        ),
                        WalkStep::Done(update) => (
                            moved,
                            DispatchStep::Done(DispatchResult { specific: result, update }),
                        ),
                        WalkStep::Idle => (moved, DispatchStep::Idle),
                    }
                },
            },
        }
    }

    /// The dispatch after `start`, and the step that `start` returns.
    pub open spec fn started(self, modules: Seq<Module>) -> (Dispatch, DispatchStep) {
        let opened = self.walk.started(modules);
        self.settled(modules, opened.0, opened.1)
    }

    /// The dispatch after `resume` with `outcome`, and the step that `resume` returns.
    pub open spec fn resumed(self, modules: Seq<Module>, outcome: Outcome) -> (
        Dispatch,
        DispatchStep,
    ) {
        let moved = self.walk.resumed(modules, outcome);
        self.settled(modules, moved.0, moved.1)
    }

    /// The dispatch of an event of `kind` before anything was asked.
    pub fn new(kind: EventKind) -> (dispatch: Dispatch)
        ensures
            dispatch == Dispatch::fresh(kind),
    {
        Dispatch {
            kind,
            pass: Pass::Specific,
            walk: Walk::new(Process::for_kind(kind)),
            specific: PassResult::Unclaimed,
        }
    }

    /// Opens the dispatch: names the first handler to ask, or ends at once when no
    /// handler is offered the event in either pass.
    pub fn start(&mut self, modules: &Vec<Module>) -> (step: DispatchStep)
        ensures
            (*final(self), step) == old(self).started(modules@),
    {
        let opened = self.walk.start(modules);
        self.settle(modules, opened)
    }

    /// Takes the answer of the handler that was asked last and names the next
    /// handler to ask, in the same pass or in the second one, or ends the dispatch.
    pub fn resume(&mut self, modules: &Vec<Module>, outcome: Outcome) -> (step: DispatchStep)
        ensures
            (*final(self), step) == old(self).resumed(modules@, outcome),
    {
        let moved = self.walk.resume(modules, outcome);
        self.settle(modules, moved)
    }

    fn settle(&mut self, modules: &Vec<Module>, step: WalkStep) -> (next: DispatchStep)
        ensures
            (*final(self), next) == old(self).settled(modules@, old(self).walk, step),
    {
        match step {
            WalkStep::Invoke(position) => DispatchStep::Invoke { pass: self.pass, position },
            WalkStep::Idle => DispatchStep::Idle,
            WalkStep::Done(result) => match self.pass {
                Pass::Update => DispatchStep::Done(
                    DispatchResult { specific: self.specific, update: result },
                ),
                Pass::Specific => {
                    self.pass = Pass::Update;
                    self.specific = result;
                    self.walk = Walk::new(Process::UpdateProcess);
                    match self.walk.start(modules) {
                        WalkStep::Invoke(position) => DispatchStep::Invoke {
                            pass: Pass::Update,
                            position,
                        },
                        WalkStep::Done(update) => DispatchStep::Done(
                            DispatchResult { specific: result, update },
                        ),
                        WalkStep::Idle => DispatchStep::Idle,
                    }
                },
            },
        }
    }
}

} // verus!
