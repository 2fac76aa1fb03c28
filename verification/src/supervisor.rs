//! The connection supervisor: connect, sign in once, serve, and on every failure
//! wait and connect again, until the session is lost or the caller cancels.
//!
//! The supervisor performs nothing itself. `Supervisor::step` takes what was
//! observed and returns what to do next.

use crate::backoff::{backoff_secs, bumped, bumped_by, lemma_backoff_bounds, RetryState};
use vstd::arithmetic::power2::{lemma2_to64, pow2};
use vstd::prelude::*;

verus! {

/// Why the supervisor stopped.
#[derive(Clone, Copy, Debug, PartialEq, Eq, Structural)]
pub enum ExitReason {
    /// The caller asked it to stop.
    Cancelled,
    /// After a reconnect the remote side no longer took the session for authorized.
    AuthorizationLost,
    /// Signing in failed before serving began.
    AuthenticationFailed,
}

/// The errors that reach the caller of the supervisor. Every other error is
/// answered by waiting and connecting again.
#[derive(Clone, Copy, Debug, PartialEq, Eq, Structural)]
pub enum FatalError {
    AuthenticationError,
    AuthorizationLost,
}

impl ExitReason {
    /// What the caller of the supervisor gets when it stops for this reason.
    pub open spec fn surfaced(self) -> Result<(), FatalError> {
        match self {
            ExitReason::Cancelled => Ok(()),
            ExitReason::AuthorizationLost => Err(FatalError::AuthorizationLost),
            ExitReason::AuthenticationFailed => Err(FatalError::AuthenticationError),
        }
    }

    /// What the caller of the supervisor gets when it stops for this reason: a
    /// cancellation is a clean end, the two others are errors.
    pub fn into_result(self) -> (result: Result<(), FatalError>)
        ensures
            result == self.surfaced(),
    {
        match self {
            ExitReason::Cancelled => Ok(()),
            ExitReason::AuthorizationLost => Err(FatalError::AuthorizationLost),
            ExitReason::AuthenticationFailed => Err(FatalError::AuthenticationError),
        }
    }
}

/// Where the supervisor stands.
#[derive(Clone, Copy, Debug, PartialEq, Eq, Structural)]
pub enum Phase {
    /// No connection: before the first attempt, and while a delay runs.
    Disconnected,
    /// A connect is under way.
    Connecting,
    /// The first connection stands and the sign-in is under way.
    Authenticating,
    /// A later connection stands and the session is being checked.
    Verifying,
    /// Events are being pulled.
    Serving,
    /// The supervisor has stopped for good.
    Terminated(ExitReason),
}

/// What the supervisor is told.
#[derive(Clone, Copy, Debug, PartialEq, Eq, Structural)]
pub enum Event {
    /// It is time to connect: at the start, and when a delay has run out.
    Wake,
    /// The connect gave a live connection, which has replaced the one before.
    Connected,
    /// The connect failed.
    ConnectFailed,
    /// The sign-in ended with an identity.
    Authenticated,
    /// The sign-in failed.
    AuthenticationFailed,
    /// The session check after a reconnect found the session authorized.
    Authorized,
    /// The session check after a reconnect found the session logged out.
    Unauthorized,
    /// The session check after a reconnect could not be made.
    AuthorizationCheckFailed,
    /// A pull came back clean and brought an event.
    EventPulled,
    /// A pull came back clean and brought nothing.
    NothingPulled,
    /// A pull failed.
    PullFailed,
    /// The caller wants the supervisor to stop.
    Cancelled,
}

/// The kinds of error that the supervisor and those around it tell apart.
#[derive(Clone, Copy, Debug, PartialEq, Eq, Structural)]
pub enum ErrorKind {
    /// A connect, or the session check that follows a reconnect, did not succeed.
    ConnectError,
    /// A pull did not succeed.
    PullError,
    /// The remote side no longer takes the session for authorized.
    AuthorizationLost,
    /// The sign-in did not succeed.
    AuthenticationError,
    /// A handler failed on an event.
    HandlerError,
}

impl ErrorKind {
    /// Whether an error of this kind ends the supervisor and reaches its caller.
    pub open spec fn fatal(self) -> bool {
        self == ErrorKind::AuthorizationLost || self == ErrorKind::AuthenticationError
    }

    /// Whether an error of this kind is answered by waiting and connecting again.
    pub open spec fn retried(self) -> bool {
        self == ErrorKind::ConnectError || self == ErrorKind::PullError
    }

    /// Whether an error of this kind ends the supervisor and reaches its caller.
    pub fn is_fatal(&self) -> (yes: bool)
        ensures
            yes == self.fatal(),
    {
        match self {
            ErrorKind::AuthorizationLost => true,
            ErrorKind::AuthenticationError => true,
            _ => false,
        }
    }

    /// Whether an error of this kind is answered by waiting and connecting again.
    pub fn is_retried(&self) -> (yes: bool)
        ensures
            yes == self.retried(),
    {
        match self {
            ErrorKind::ConnectError => true,
            ErrorKind::PullError => true,
            _ => false,
        }
    }
}

impl Event {
    /// The kind of error that the event reports, if it reports one.
    pub open spec fn error_kind(self) -> Option<ErrorKind> {
        match self {
            Event::ConnectFailed => Some(ErrorKind::ConnectError),
            Event::AuthorizationCheckFailed => Some(ErrorKind::ConnectError),
            Event::PullFailed => Some(ErrorKind::PullError),
            Event::Unauthorized => Some(ErrorKind::AuthorizationLost),
            Event::AuthenticationFailed => Some(ErrorKind::AuthenticationError),
            _ => None,
        }
    }

    /// The kind of error that the event reports, if it reports one.
    pub fn error(&self) -> (kind: Option<ErrorKind>)
        ensures
            kind == self.error_kind(),
    {
        match self {
            Event::ConnectFailed => Some(ErrorKind::ConnectError),
            Event::AuthorizationCheckFailed => Some(ErrorKind::ConnectError),
            Event::PullFailed => Some(ErrorKind::PullError),
            Event::Unauthorized => Some(ErrorKind::AuthorizationLost),
            Event::AuthenticationFailed => Some(ErrorKind::AuthenticationError),
            _ => None,
        }
    }
}

/// What the supervisor wants done.
#[derive(Clone, Copy, Debug, PartialEq, Eq, Structural)]
pub enum Action {
    /// Build a connection from the stored session and put it in place of the old one.
    Connect,
    /// Run the sign-in on the new connection.
    Authenticate,
    /// Ask the remote side whether the session is still authorized.
    CheckAuthorization,
    /// Wait for the next event, or for the caller to cancel.
    Pull,
    /// Hand the event just pulled to the router on a task of its own, and, without
    /// waiting for it, pull again.
    DispatchAndPull,
    /// Wait this many seconds, then report `Event::Wake`.
    Sleep { secs: u64 },
    /// Stop.
    Exit(ExitReason),
    /// Nothing: the event was not expected where the supervisor stands.
    Ignore,
}

/// The supervisor's state.
#[derive(Clone, Copy, Debug, PartialEq, Eq, Structural)]
pub struct Supervisor {
    pub phase: Phase,
    /// The failures in a row since the last clean pull.
    pub retry: RetryState,
    /// Whether the sign-in has been done.
    pub authenticated: bool,
}

impl Supervisor {
    /// The state at the start.
    pub open spec fn initial() -> Supervisor {
        Supervisor {
            phase: Phase::Disconnected,
            retry: RetryState { failures: 0 },
            authenticated: false,
        }
    }

    /// Whether the supervisor has stopped for good.
    pub open spec fn terminated(self) -> bool {
        self.phase is Terminated
    }

    /// Whether `event` reports a failure of what the supervisor is waiting for:
    /// of the connect, of the session check after a reconnect, or of the pull.
    pub open spec fn fails_on(self, event: Event) -> bool {
        match (self.phase, event) {
            (Phase::Connecting, Event::ConnectFailed) => true,
            (Phase::Verifying, Event::AuthorizationCheckFailed) => true,
            (Phase::Serving, Event::PullFailed) => true,
            _ => false,
        }
    }

    /// Whether `event` reports a clean pull to a supervisor that is serving.
    pub open spec fn pulls_cleanly_on(self, event: Event) -> bool {
        self.phase == Phase::Serving && (event == Event::EventPulled || event
            == Event::NothingPulled)
    }

    /// The state and action after a failure: one more failure is counted, and the
    /// supervisor waits out the delay that the new count calls for.
    pub open spec fn backed_off(self) -> (Supervisor, Action) {
        let retry = self.retry.after_failure();
        (
            Supervisor { phase: Phase::Disconnected, retry, authenticated: self.authenticated },
            Action::Sleep { secs: retry.delay() as u64 },
        )
    }

    /// The state and action after stopping for `reason`.
    pub open spec fn stopped(self, reason: ExitReason) -> (Supervisor, Action) {
        (Supervisor { phase: Phase::Terminated(reason), ..self }, Action::Exit(reason))
    }

    /// The state after `event`, and the action that `step` returns.
    pub open spec fn next(self, event: Event) -> (Supervisor, Action) {
        match (self.phase, event) {
            (Phase::Terminated(_), _) => (self, Action::Ignore),
            (_, Event::Cancelled) => self.stopped(ExitReason::Cancelled),
            (Phase::Disconnected, Event::Wake) => (
                Supervisor { phase: Phase::Connecting, ..self },
                Action::Connect,
            ),
            (Phase::Connecting, Event::Connected) => if self.authenticated {
                (Supervisor { phase: Phase::Verifying, ..self }, Action::CheckAuthorization)
            } else {
                (Supervisor { phase: Phase::Authenticating, ..self }, Action::Authenticate)
            },
            (Phase::Connecting, Event::ConnectFailed) => self.backed_off(),
            (Phase::Authenticating, Event::Authenticated) => (
                Supervisor { phase: Phase::Serving, retry: self.retry, authenticated: true },
                Action::Pull,
            ),
            (Phase::Authenticating, Event::AuthenticationFailed) => self.stopped(
                ExitReason::AuthenticationFailed,
            ),
            (Phase::Verifying, Event::Authorized) => (
                Supervisor { phase: Phase::Serving, ..self },
                Action::Pull,
            ),
            (Phase::Verifying, Event::Unauthorized) => self.stopped(ExitReason::AuthorizationLost),
            (Phase::Verifying, Event::AuthorizationCheckFailed) => self.backed_off(),
            (Phase::Serving, Event::EventPulled) => (
                Supervisor { retry: RetryState { failures: 0 }, ..self },
                Action::DispatchAndPull,
            ),
            (Phase::Serving, Event::NothingPulled) => (
                Supervisor { retry: RetryState { failures: 0 }, ..self },
                Action::Pull,
            ),
            (Phase::Serving, Event::PullFailed) => self.backed_off(),
            _ => (self, Action::Ignore),
        }
    }

    /// A supervisor that has not connected yet. `Event::Wake` sets it going.
    pub fn new() -> (supervisor: Supervisor)
        ensures
            supervisor == Supervisor::initial(),
    {
        Supervisor { phase: Phase::Disconnected, retry: RetryState::new(), authenticated: false }
    }

    /// Whether the supervisor has stopped for good.
    pub fn is_terminated(&self) -> (over: bool)
        ensures
            over == self.terminated(),
    {
        match self.phase {
            Phase::Terminated(_) => true,
            _ => false,
        }
    }

    /// Why the supervisor stopped, if it has.
    pub fn exit_reason(&self) -> (reason: Option<ExitReason>)
        ensures
            reason == match self.phase {
                Phase::Terminated(why) => Some(why),
                _ => None,
            },
    {
        match self.phase {
            Phase::Terminated(why) => Some(why),
            _ => None,
        }
    }

    /// Takes one event and returns what to do next.
    pub fn step(&mut self, event: Event) -> (action: Action)
        ensures
            (*final(self), action) == old(self).next(event),
    {
        match (self.phase, event) {
            (Phase::Terminated(_), _) => Action::Ignore,
            (_, Event::Cancelled) => self.stop(ExitReason::Cancelled),
            (Phase::Disconnected, Event::Wake) => {
                self.phase = Phase::Connecting;
                Action::Connect
            },
            (Phase::Connecting, Event::Connected) => {
                if self.authenticated {
                    self.phase = Phase::Verifying;
                    Action::CheckAuthorization
                } else {
                    self.phase = Phase::Authenticating;
                    Action::Authenticate
                }
            },
            (Phase::Connecting, Event::ConnectFailed) => self.back_off(),
            (Phase::Authenticating, Event::Authenticated) => {
                self.phase = Phase::Serving;
                self.authenticated = true;
                Action::Pull
            },
            (Phase::Authenticating, Event::AuthenticationFailed) => self.stop(
                ExitReason::AuthenticationFailed,
            ),
            (Phase::Verifying, Event::Authorized) => {
                self.phase = Phase::Serving;
                Action::Pull
            },
            (Phase::Verifying, Event::Unauthorized) => self.stop(ExitReason::AuthorizationLost),
            (Phase::Verifying, Event::AuthorizationCheckFailed) => self.back_off(),
            (Phase::Serving, Event::EventPulled) => {
                self.retry.record_success();
                Action::DispatchAndPull
            },
            (Phase::Serving, Event::NothingPulled) => {
                self.retry.record_success();
                Action::Pull
            },
            (Phase::Serving, Event::PullFailed) => self.back_off(),
            _ => Action::Ignore,
        }
    }

    fn back_off(&mut self) -> (action: Action)
        ensures
            (*final(self), action) == old(self).backed_off(),
    {
        let secs = self.retry.record_failure();
        self.phase = Phase::Disconnected;
        Action::Sleep { secs }
    }

    fn stop(&mut self, reason: ExitReason) -> (action: Action)
        ensures
            (*final(self), action) == old(self).stopped(reason),
    {
        self.phase = Phase::Terminated(reason);
        Action::Exit(reason)
    }
}

/// The state after the events of `events`, taken in turn.
pub open spec fn state_after(start: Supervisor, events: Seq<Event>) -> Supervisor
    decreases events.len(),
{
    if events.len() == 0 {
        start
    } else {
        state_after(start, events.drop_last()).next(events.last()).0
    }
}

/// The action that the last event of `events` brings; `Action::Ignore` when
/// there is no event.
pub open spec fn last_action(start: Supervisor, events: Seq<Event>) -> Action {
    if events.len() == 0 {
        Action::Ignore
    } else {
        state_after(start, events.drop_last()).next(events.last()).1
    }
}

/// How many of `events` report a failure of what the supervisor was waiting for.
pub open spec fn failures_among(start: Supervisor, events: Seq<Event>) -> nat
    decreases events.len(),
{
    if events.len() == 0 {
        0
    } else {
        let before = failures_among(start, events.drop_last());
        if state_after(start, events.drop_last()).fails_on(events.last()) {
            before + 1
        } else {
            before
        }
    }
}

/// Whether one of `events` reports a clean pull to the serving supervisor.
pub open spec fn pulls_cleanly_among(start: Supervisor, events: Seq<Event>) -> bool
    decreases events.len(),
{
    if events.len() == 0 {
        false
    } else {
        pulls_cleanly_among(start, events.drop_last()) || state_after(
            start,
            events.drop_last(),
        ).pulls_cleanly_on(events.last())
    }
}

/// Every failure of a connect, of a session check after a reconnect, or of a pull
/// counts once, sends the supervisor back to `Disconnected`, and asks for a delay
/// of `2^min(n, 10)` seconds, where `n` is the new count of failures in a row.
pub proof fn lemma_failure_backs_off(state: Supervisor, event: Event)
    requires
        state.fails_on(event),
    ensures
        state.next(event).0.phase == Phase::Disconnected,
        state.next(event).0.retry.failures == bumped(state.retry.failures as nat),
        state.next(event).0.authenticated == state.authenticated,
        state.next(event).1 == (Action::Sleep {
            secs: backoff_secs(bumped(state.retry.failures as nat)) as u64,
        }),
        1 <= backoff_secs(bumped(state.retry.failures as nat)) <= 1024,
{
    lemma_backoff_bounds(bumped(state.retry.failures as nat));
}

/// One clean pull ends the streak of failures, however long it was, and the
/// supervisor goes on serving.
pub proof fn lemma_clean_pull_resets_streak(state: Supervisor, event: Event)
    requires
        state.pulls_cleanly_on(event),
    ensures
        state.next(event).0.retry.failures == 0,
        state.next(event).0.phase == Phase::Serving,
        state.next(event).1 == if event == Event::EventPulled {
            Action::DispatchAndPull
        } else {
            Action::Pull
        },
{
}

/// Nothing but a clean pull shortens the streak: not a connect that succeeds,
/// not a session check that passes, not the end of a delay.
pub proof fn lemma_streak_only_resets_on_clean_pull(state: Supervisor, event: Event)
    requires
        !state.pulls_cleanly_on(event),
    ensures
        state.next(event).0.retry.failures >= state.retry.failures,
        !state.fails_on(event) ==> state.next(event).0.retry == state.retry,
{
}

/// While no pull comes back clean, the streak after a run of events is the
/// streak before it with every failure of the run counted.
pub proof fn lemma_streak_counts_failures(start: Supervisor, events: Seq<Event>)
    requires
        !pulls_cleanly_among(start, events),
    ensures
        state_after(start, events).retry.failures == bumped_by(
            start.retry.failures as nat,
            failures_among(start, events),
        ),
    decreases events.len(),
{
    if events.len() > 0 {
        lemma_streak_counts_failures(start, events.drop_last());
        let before = state_after(start, events.drop_last());
        lemma_streak_only_resets_on_clean_pull(before, events.last());
    }
}

/// After `n` failures in a row, with no clean pull between them, the delay asked
/// for at the `n`-th failure is `2^n` seconds for `n <= 10` and `2^10` seconds
/// for every larger `n`.
pub proof fn lemma_delay_after_failures_in_a_row(start: Supervisor, events: Seq<Event>)
    requires
        start.retry.failures == 0,
        !pulls_cleanly_among(start, events),
        events.len() > 0,
        state_after(start, events.drop_last()).fails_on(events.last()),
    ensures
        failures_among(start, events) >= 1,
        failures_among(start, events) <= 10 ==> last_action(start, events) == (Action::Sleep {
            secs: pow2(failures_among(start, events)) as u64,
        }),
        failures_among(start, events) > 10 ==> last_action(start, events) == (Action::Sleep {
            secs: 1024,
        }),
{
    let n = failures_among(start, events);
    let before = state_after(start, events.drop_last());
    lemma_streak_counts_failures(start, events.drop_last());
    lemma_failure_backs_off(before, events.last());
    crate::backoff::lemma_bumped_by_from_zero(n);
    crate::backoff::lemma_bumped_by_from_zero((n - 1) as nat);
    lemma2_to64();
}

/// A supervisor that finds the session logged out after a reconnect stops for
/// good: whatever it is told afterwards, it stays where it is and asks for
/// nothing, so it never connects again. The caller gets `AuthorizationLost`.
pub proof fn lemma_logout_ends_the_loop(state: Supervisor, later: Seq<Event>)
    requires
        state.phase == Phase::Verifying,
    ensures
        state.next(Event::Unauthorized).1 == Action::Exit(ExitReason::AuthorizationLost),
        state.next(Event::Unauthorized).0.phase == Phase::Terminated(
            ExitReason::AuthorizationLost,
        ),
        ExitReason::AuthorizationLost.surfaced() == Err::<(), FatalError>(
            FatalError::AuthorizationLost,
        ),
        state_after(state.next(Event::Unauthorized).0, later) == state.next(
            Event::Unauthorized,
        ).0,
        later.len() > 0 ==> last_action(state.next(Event::Unauthorized).0, later)
            == Action::Ignore,
{
    lemma_terminated_is_final(state.next(Event::Unauthorized).0, later);
}

/// Once stopped, the supervisor stays stopped and asks for nothing more.
pub proof fn lemma_terminated_is_final(state: Supervisor, later: Seq<Event>)
    requires
        state.terminated(),
    ensures
        state_after(state, later) == state,
        later.len() > 0 ==> last_action(state, later) == Action::Ignore,
    decreases later.len(),
{
    if later.len() > 0 {
        lemma_terminated_is_final(state, later.drop_last());
    }
}

/// A failed pull is no reason to stop: the supervisor waits, and on waking
/// connects again and, the connection made, checks the session.
pub proof fn lemma_pull_failure_reconnects(state: Supervisor)
    requires
        state.phase == Phase::Serving,
        state.authenticated,
    ensures
        state.next(Event::PullFailed).1 is Sleep,
        !state.next(Event::PullFailed).0.terminated(),
        state.next(Event::PullFailed).0.next(Event::Wake).1 == Action::Connect,
        state.next(Event::PullFailed).0.next(Event::Wake).0.next(Event::Connected).1
            == Action::CheckAuthorization,
{
}

/// No two connects are under way at once: a connect is asked for only by a
/// supervisor that is disconnected, which is then connecting, and a supervisor
/// that is connecting asks for no other connect.
pub proof fn lemma_one_connect_at_a_time(state: Supervisor, event: Event)
    ensures
        state.next(event).1 == Action::Connect ==> state.phase == Phase::Disconnected && event
            == Event::Wake && state.next(event).0.phase == Phase::Connecting,
        state.phase == Phase::Connecting ==> state.next(event).1 != Action::Connect,
{
}

/// Whether the phase fits what has been done: a supervisor that serves, or that
/// checks the session after a reconnect, has signed in before, and one that is
/// signing in has not.
pub open spec fn orderly(state: Supervisor) -> bool {
    &&& (state.phase == Phase::Serving || state.phase == Phase::Verifying) ==> state.authenticated
    &&& state.phase == Phase::Authenticating ==> !state.authenticated
}

/// Whatever happens to a supervisor from its start, it serves only after the
/// sign-in has succeeded: no pull is asked for before.
pub proof fn lemma_serves_only_signed_in(events: Seq<Event>)
    ensures
        orderly(state_after(Supervisor::initial(), events)),
        (last_action(Supervisor::initial(), events) == Action::Pull || last_action(
            Supervisor::initial(),
            events,
        ) == Action::DispatchAndPull) ==> state_after(Supervisor::initial(), events).authenticated,
    decreases events.len(),
{
    if events.len() > 0 {
        lemma_serves_only_signed_in(events.drop_last());
    }
}

/// How many of `events` bring the request to sign in.
pub open spec fn sign_ins_among(start: Supervisor, events: Seq<Event>) -> nat
    decreases events.len(),
{
    if events.len() == 0 {
        0
    } else {
        let before = sign_ins_among(start, events.drop_last());
        if last_action(start, events) == Action::Authenticate {
            before + 1
        } else {
            before
        }
    }
}

/// Whatever happens to a supervisor from its start, it asks for the sign-in
/// once at most.
pub proof fn lemma_signs_in_at_most_once(events: Seq<Event>)
    ensures
        sign_ins_among(Supervisor::initial(), events) <= 1,
        sign_ins_among(Supervisor::initial(), events) == 1 ==> {
            let state = state_after(Supervisor::initial(), events);
            state.authenticated || state.phase == Phase::Authenticating || state.terminated()
        },
    decreases events.len(),
{
    if events.len() > 0 {
        lemma_signs_in_at_most_once(events.drop_last());
        lemma_serves_only_signed_in(events.drop_last());
    }
}

/// The sign-in is asked for on a connection that stands, by a supervisor that
/// has not signed in yet, and by no other. A supervisor that has signed in
/// stays signed in.
pub proof fn lemma_authenticates_once(state: Supervisor, event: Event)
    ensures
        state.next(event).1 == Action::Authenticate ==> !state.authenticated && state.phase
            == Phase::Connecting && event == Event::Connected,
        state.authenticated ==> state.next(event).0.authenticated,
{
}

/// How errors are dealt with. An event that the supervisor expects and that
/// reports an error either ends the supervisor with an error for its caller,
/// when the error is fatal, or sends it into a delay, when the error is one to
/// retry. Nothing else does either, but that a cancellation ends the supervisor
/// without an error. And no event reports the error of a handler.
pub proof fn lemma_error_policy(state: Supervisor, event: Event)
    requires
        state.next(event).1 != Action::Ignore,
    ensures
        event.error_kind() != Some(ErrorKind::HandlerError),
        event.error_kind() matches Some(kind) ==> kind.fatal() != kind.retried(),
        event.error_kind() matches Some(kind) && kind.fatal() ==> {
            &&& state.next(event).1 matches Action::Exit(reason) && reason.surfaced() is Err
            &&& state.next(event).0.terminated()
        },
        event.error_kind() matches Some(kind) && kind.retried() ==> {
            &&& state.next(event).1 is Sleep
            &&& state.next(event).0.phase == Phase::Disconnected
            &&& state.fails_on(event)
        },
        event.error_kind() is None ==> !(state.next(event).1 is Sleep),
        event.error_kind() is None && state.next(event).1 is Exit ==> event == Event::Cancelled
            && state.next(event).1 == Action::Exit(ExitReason::Cancelled),
{
}

/// What a handler makes of an event never reaches the supervisor: no event that
/// the supervisor takes speaks of a handler, and a clean pull that brought an
/// event always leads to the next pull, with the dispatch left to a task of its own.
pub proof fn lemma_serving_goes_on_after_dispatch(state: Supervisor)
    requires
        state.phase == Phase::Serving,
    ensures
        state.next(Event::EventPulled).1 == Action::DispatchAndPull,
        state.next(Event::EventPulled).0.phase == Phase::Serving,
        state.next(Event::EventPulled).0.next(Event::EventPulled).1 == Action::DispatchAndPull,
{
}

/// A cancellation stops a supervisor from wherever it stands, without an error.
pub proof fn lemma_cancellation_stops(state: Supervisor)
    requires
        !state.terminated(),
    ensures
        state.next(Event::Cancelled).1 == Action::Exit(ExitReason::Cancelled),
        state.next(Event::Cancelled).0.phase == Phase::Terminated(ExitReason::Cancelled),
        ExitReason::Cancelled.surfaced() is Ok,
{
}

} // verus!
