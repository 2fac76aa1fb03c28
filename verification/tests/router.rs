use teleser::{
    decided_by, find_next, handler_at, Dispatch, DispatchResult, DispatchStep, EventKind, Handler,
    HandlerError, Module, Outcome, Pass, PassResult, Position, Process, Walk, WalkState, WalkStep,
};

fn make_module(id: &str, handlers: &[(&str, Process)]) -> Module {
    Module {
        id: id.to_string(),
        name: id.to_string(),
        handlers: handlers
            .iter()
            .map(|(handler_id, process)| Handler { id: handler_id.to_string(), process: *process })
            .collect(),
    }
}

fn at(module: usize, handler: usize) -> Position {
    Position { module, handler }
}

fn failure(message: &str) -> Outcome {
    Outcome::Failed(HandlerError { message: message.to_string() })
}

fn answer_of(modules: &[Module], position: Position, script: &[(&str, Outcome)]) -> Outcome {
    let id = &modules[position.module].handlers[position.handler].id;
    for (handler_id, outcome) in script {
        if handler_id == id {
            return match outcome {
                Outcome::NotClaimed => Outcome::NotClaimed,
                Outcome::Claimed => Outcome::Claimed,
                Outcome::Failed(error) => {
                    Outcome::Failed(HandlerError { message: error.message.clone() })
                }
            };
        }
    }
    Outcome::NotClaimed
}

fn run_dispatch(
    modules: &Vec<Module>,
    kind: EventKind,
    script: &[(&str, Outcome)],
) -> (Vec<String>, DispatchResult) {
    let mut invoked = Vec::new();
    let mut dispatch = Dispatch::new(kind);
    let mut step = dispatch.start(modules);
    loop {
        match step {
            DispatchStep::Invoke { position, .. } => {
                invoked.push(modules[position.module].handlers[position.handler].id.clone());
                step = dispatch.resume(modules, answer_of(modules, position, script));
            }
            DispatchStep::Done(result) => return (invoked, result),
            DispatchStep::Idle => panic!("a dispatch that is under way was idle"),
        }
    }
}

#[test]
fn first_claim_stops_the_walk_before_later_modules() {
    let modules = vec![
        make_module(
            "A",
            &[("a1", Process::NewMessageProcess), ("a2", Process::NewMessageProcess)],
        ),
        make_module("B", &[("b1", Process::NewMessageProcess)]),
    ];
    let (invoked, result) =
        run_dispatch(&modules, EventKind::NewMessage, &[("a2", Outcome::Claimed)]);
    assert_eq!(invoked, vec!["a1".to_string(), "a2".to_string()]);
    assert!(!invoked.contains(&"b1".to_string()));
    assert_eq!(result.specific, PassResult::Claimed(at(0, 1)));
    assert_eq!(result.update, PassResult::Unclaimed);
}

#[test]
fn first_claim_stops_the_walk_inside_a_module() {
    let modules = vec![make_module(
        "A",
        &[
            ("a1", Process::NewMessageProcess),
            ("a2", Process::NewMessageProcess),
            ("a3", Process::NewMessageProcess),
        ],
    )];
    let (invoked, result) =
        run_dispatch(&modules, EventKind::NewMessage, &[("a1", Outcome::Claimed)]);
    assert_eq!(invoked, vec!["a1".to_string()]);
    assert_eq!(result.specific, PassResult::Claimed(at(0, 0)));
}

#[test]
fn update_handler_in_later_module_still_runs_after_a_claim() {
    let modules = vec![
        make_module("A", &[("a1", Process::NewMessageProcess)]),
        make_module("B", &[("u1", Process::UpdateProcess)]),
    ];
    let (invoked, result) =
        run_dispatch(&modules, EventKind::NewMessage, &[("a1", Outcome::Claimed)]);
    assert_eq!(invoked, vec!["a1".to_string(), "u1".to_string()]);
    assert_eq!(
        result,
        DispatchResult { specific: PassResult::Claimed(at(0, 0)), update: PassResult::Unclaimed }
    );
}

#[test]
fn update_handler_in_earlier_module_does_not_block_specific_handler() {
    let modules = vec![
        make_module("U", &[("u1", Process::UpdateProcess)]),
        make_module("A", &[("a1", Process::MessageEditedProcess)]),
    ];
    let (invoked, result) = run_dispatch(
        &modules,
        EventKind::MessageEdited,
        &[("u1", Outcome::Claimed), ("a1", Outcome::Claimed)],
    );
    assert_eq!(invoked, vec!["a1".to_string(), "u1".to_string()]);
    assert_eq!(
        result,
        DispatchResult {
            specific: PassResult::Claimed(at(1, 0)),
            update: PassResult::Claimed(at(0, 0)),
        }
    );
}

#[test]
fn update_pass_runs_even_when_specific_pass_failed() {
    let modules = vec![
        make_module("A", &[("a1", Process::CallbackQueryProcess), ("u1", Process::UpdateProcess)]),
        make_module("B", &[("b1", Process::CallbackQueryProcess), ("u2", Process::UpdateProcess)]),
    ];
    let (invoked, result) = run_dispatch(
        &modules,
        EventKind::CallbackQuery,
        &[("a1", failure("broken")), ("u2", Outcome::Claimed)],
    );
    assert_eq!(invoked, vec!["a1".to_string(), "u1".to_string(), "u2".to_string()]);
    assert_eq!(result.specific, PassResult::Failed(at(0, 0)));
    assert_eq!(result.update, PassResult::Claimed(at(1, 1)));
    assert!(result.specific.is_failure());
    assert!(!result.update.is_failure());
}

#[test]
fn failed_handler_is_reported_not_raised() {
    let modules = vec![make_module(
        "A",
        &[("a1", Process::InlineQueryProcess), ("a2", Process::InlineQueryProcess)],
    )];
    let (invoked, result) =
        run_dispatch(&modules, EventKind::InlineQuery, &[("a1", failure("boom"))]);
    assert_eq!(invoked, vec!["a1".to_string()]);
    assert_eq!(result.specific, PassResult::Failed(at(0, 0)));
    assert_eq!(result.specific.position(), Some(at(0, 0)));
    assert_eq!(result.update, PassResult::Unclaimed);
    assert_eq!(result.update.position(), None);
}

#[test]
fn handlers_of_other_kinds_are_never_asked() {
    let modules = vec![make_module(
        "A",
        &[
            ("edited", Process::MessageEditedProcess),
            ("deleted", Process::MessageDeletedProcess),
            ("callback", Process::CallbackQueryProcess),
            ("inline", Process::InlineQueryProcess),
            ("raw", Process::RawProcess),
            ("new", Process::NewMessageProcess),
        ],
    )];
    let kinds = [
        (EventKind::NewMessage, "new"),
        (EventKind::MessageEdited, "edited"),
        (EventKind::MessageDeleted, "deleted"),
        (EventKind::CallbackQuery, "callback"),
        (EventKind::InlineQuery, "inline"),
        (EventKind::Raw, "raw"),
    ];
    for (kind, expected) in kinds {
        let (invoked, result) = run_dispatch(&modules, kind, &[]);
        assert_eq!(invoked, vec![expected.to_string()]);
        assert_eq!(
            result,
            DispatchResult { specific: PassResult::Unclaimed, update: PassResult::Unclaimed }
        );
    }
}

#[test]
fn raw_events_reach_update_handlers_too() {
    let modules = vec![make_module(
        "A",
        &[("u1", Process::UpdateProcess), ("r1", Process::RawProcess)],
    )];
    let (invoked, result) = run_dispatch(
        &modules,
        EventKind::Raw,
        &[("u1", Outcome::Claimed), ("r1", Outcome::Claimed)],
    );
    assert_eq!(invoked, vec!["r1".to_string(), "u1".to_string()]);
    assert_eq!(result.specific, PassResult::Claimed(at(0, 1)));
    assert_eq!(result.update, PassResult::Claimed(at(0, 0)));
}

#[test]
fn empty_registry_ends_at_once() {
    let modules: Vec<Module> = Vec::new();
    let mut dispatch = Dispatch::new(EventKind::NewMessage);
    assert_eq!(
        dispatch.start(&modules),
        DispatchStep::Done(DispatchResult {
            specific: PassResult::Unclaimed,
            update: PassResult::Unclaimed,
        })
    );
    assert_eq!(dispatch.start(&modules), DispatchStep::Idle);
    assert_eq!(dispatch.resume(&modules, Outcome::Claimed), DispatchStep::Idle);
}

#[test]
fn modules_without_handlers_are_skipped() {
    let modules = vec![
        make_module("empty", &[]),
        make_module("also empty", &[]),
        make_module("C", &[("c1", Process::NewMessageProcess)]),
        make_module("last", &[]),
    ];
    let (invoked, result) =
        run_dispatch(&modules, EventKind::NewMessage, &[("c1", Outcome::Claimed)]);
    assert_eq!(invoked, vec!["c1".to_string()]);
    assert_eq!(result.specific, PassResult::Claimed(at(2, 0)));
}

#[test]
fn unclaimed_event_visits_every_matching_handler_in_order() {
    let modules = vec![
        make_module("A", &[("a1", Process::NewMessageProcess), ("x", Process::RawProcess)]),
        make_module("B", &[("u", Process::UpdateProcess), ("b1", Process::NewMessageProcess)]),
        make_module("C", &[("c1", Process::NewMessageProcess)]),
    ];
    let (invoked, result) = run_dispatch(&modules, EventKind::NewMessage, &[]);
    assert_eq!(
        invoked,
        vec!["a1".to_string(), "b1".to_string(), "c1".to_string(), "u".to_string()]
    );
    assert_eq!(
        result,
        DispatchResult { specific: PassResult::Unclaimed, update: PassResult::Unclaimed }
    );
}

#[test]
fn dispatch_steps_name_their_pass() {
    let modules = vec![make_module(
        "A",
        &[("u", Process::UpdateProcess), ("n", Process::NewMessageProcess)],
    )];
    let mut dispatch = Dispatch::new(EventKind::NewMessage);
    assert_eq!(
        dispatch.start(&modules),
        DispatchStep::Invoke { pass: Pass::Specific, position: at(0, 1) }
    );
    assert_eq!(
        dispatch.start(&modules),
        DispatchStep::Invoke { pass: Pass::Specific, position: at(0, 1) }
    );
    assert_eq!(
        dispatch.resume(&modules, Outcome::NotClaimed),
        DispatchStep::Invoke { pass: Pass::Update, position: at(0, 0) }
    );
    assert_eq!(dispatch.pass, Pass::Update);
    assert_eq!(
        dispatch.resume(&modules, failure("late")),
        DispatchStep::Done(DispatchResult {
            specific: PassResult::Unclaimed,
            update: PassResult::Failed(at(0, 0)),
        })
    );
    assert_eq!(dispatch.resume(&modules, Outcome::Claimed), DispatchStep::Idle);
}

#[test]
fn walk_follows_module_then_handler_order() {
    let modules = vec![
        make_module("A", &[("a1", Process::RawProcess), ("a2", Process::RawProcess)]),
        make_module("B", &[("b1", Process::RawProcess)]),
    ];
    let mut walk = Walk::new(Process::RawProcess);
    assert_eq!(walk.state, WalkState::Fresh);
    assert!(!walk.is_finished());
    assert_eq!(walk.resume(&modules, Outcome::Claimed), WalkStep::Idle);
    assert_eq!(walk.start(&modules), WalkStep::Invoke(at(0, 0)));
    assert_eq!(walk.state, WalkState::Waiting(at(0, 0)));
    assert_eq!(walk.resume(&modules, Outcome::NotClaimed), WalkStep::Invoke(at(0, 1)));
    assert_eq!(walk.resume(&modules, Outcome::NotClaimed), WalkStep::Invoke(at(1, 0)));
    assert_eq!(
        walk.resume(&modules, Outcome::NotClaimed),
        WalkStep::Done(PassResult::Unclaimed)
    );
    assert!(walk.is_finished());
    assert_eq!(walk.start(&modules), WalkStep::Idle);
}

#[test]
fn find_next_returns_the_earliest_match_behind_a_position() {
    let modules = vec![
        make_module("A", &[("a1", Process::UpdateProcess), ("a2", Process::NewMessageProcess)]),
        make_module("B", &[]),
        make_module("C", &[("c1", Process::NewMessageProcess), ("c2", Process::NewMessageProcess)]),
    ];
    assert_eq!(find_next(&modules, Process::NewMessageProcess, None), Some(at(0, 1)));
    assert_eq!(find_next(&modules, Process::NewMessageProcess, Some(at(0, 0))), Some(at(0, 1)));
    assert_eq!(find_next(&modules, Process::NewMessageProcess, Some(at(0, 1))), Some(at(2, 0)));
    assert_eq!(find_next(&modules, Process::NewMessageProcess, Some(at(2, 0))), Some(at(2, 1)));
    assert_eq!(find_next(&modules, Process::NewMessageProcess, Some(at(2, 1))), None);
    assert_eq!(find_next(&modules, Process::UpdateProcess, None), Some(at(0, 0)));
    assert_eq!(find_next(&modules, Process::UpdateProcess, Some(at(0, 0))), None);
    assert_eq!(find_next(&modules, Process::RawProcess, None), None);
    assert_eq!(
        find_next(&modules, Process::NewMessageProcess, Some(at(usize::MAX, usize::MAX))),
        None
    );
    assert_eq!(
        find_next(&modules, Process::NewMessageProcess, Some(at(1, usize::MAX))),
        Some(at(2, 0))
    );
}

#[test]
fn handler_lookup_by_position() {
    let modules = vec![
        make_module("A", &[("a1", Process::UpdateProcess)]),
        make_module("B", &[]),
    ];
    assert_eq!(handler_at(&modules, at(0, 0)).map(|handler| handler.id.as_str()), Some("a1"));
    assert_eq!(handler_at(&modules, at(0, 1)), None);
    assert_eq!(handler_at(&modules, at(1, 0)), None);
    assert_eq!(handler_at(&modules, at(2, 0)), None);
}

#[test]
fn capabilities_of_event_kinds() {
    assert_eq!(Process::for_kind(EventKind::NewMessage), Process::NewMessageProcess);
    assert_eq!(Process::for_kind(EventKind::MessageEdited), Process::MessageEditedProcess);
    assert_eq!(Process::for_kind(EventKind::MessageDeleted), Process::MessageDeletedProcess);
    assert_eq!(Process::for_kind(EventKind::CallbackQuery), Process::CallbackQueryProcess);
    assert_eq!(Process::for_kind(EventKind::InlineQuery), Process::InlineQueryProcess);
    assert_eq!(Process::for_kind(EventKind::Raw), Process::RawProcess);
    assert!(Process::UpdateProcess.is_update());
    assert!(!Process::RawProcess.is_update());
    assert!(Process::UpdateProcess.is_offered(EventKind::InlineQuery));
    assert!(Process::RawProcess.is_offered(EventKind::Raw));
    assert!(!Process::RawProcess.is_offered(EventKind::NewMessage));
    assert!(!Process::NewMessageProcess.is_offered(EventKind::MessageEdited));
}

#[test]
fn outcomes_of_handler_results() {
    assert_eq!(Outcome::from_result(Ok(true)), Outcome::Claimed);
    assert_eq!(Outcome::from_result(Ok(false)), Outcome::NotClaimed);
    assert_eq!(
        Outcome::from_result(Err(HandlerError { message: "no".to_string() })),
        failure("no")
    );
    assert!(!Outcome::NotClaimed.is_decisive());
    assert!(Outcome::Claimed.is_decisive());
    assert!(failure("x").is_decisive());
}

#[test]
fn diagnostic_record_names_module_and_handler() {
    let modules = vec![
        make_module("A", &[("a1", Process::NewMessageProcess)]),
        make_module("B", &[("b1", Process::NewMessageProcess), ("b2", Process::UpdateProcess)]),
    ];
    let claimed = PassResult::Claimed(at(1, 0));
    let names = decided_by(&modules, &claimed).map(|(m, h)| (m.as_str(), h.as_str()));
    assert_eq!(names, Some(("B", "b1")));
    let failed = PassResult::Failed(at(1, 1));
    let names = decided_by(&modules, &failed).map(|(m, h)| (m.as_str(), h.as_str()));
    assert_eq!(names, Some(("B", "b2")));
    assert_eq!(decided_by(&modules, &PassResult::Unclaimed), None);
    assert_eq!(decided_by(&modules, &PassResult::Claimed(at(2, 0))), None);
    assert_eq!(decided_by(&modules, &PassResult::Claimed(at(0, 1))), None);
}
