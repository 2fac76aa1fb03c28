//! The session bootstrap: what is done once, on the first connection that stands,
//! to end up with an authorized session and the identity behind it.
//!
//! A session that is authorized already needs no sign-in. Any other session is
//! signed in by the one flow that the process was configured with, and is saved
//! before the bootstrap reports success. The first step that fails ends it.

use vstd::prelude::*;

verus! {

/// The account that a session is authorized for.
#[derive(Clone, Copy, Debug, PartialEq, Eq, Structural)]
pub struct Identity {
    pub id: i64,
}

/// The way a session is signed in. A process uses one and the same throughout.
#[derive(Clone, Copy, Debug, PartialEq, Eq, Structural)]
pub enum AuthFlow {
    /// A phone number, the login code sent to it, and a password where the
    /// account has a second factor.
    PhoneAndCode,
    /// A bot token.
    BotToken,
}

/// A credential that the bootstrap asks the credential provider for.
#[derive(Clone, Copy, Debug, PartialEq, Eq, Structural)]
pub enum Prompt {
    Phone,
    Code,
    Password,
    BotToken,
}

impl Prompt {
    /// The flow that asks for this credential.
    pub open spec fn flow_of(self) -> AuthFlow {
        match self {
            Prompt::BotToken => AuthFlow::BotToken,
            _ => AuthFlow::PhoneAndCode,
        }
    }

    /// The flow that asks for this credential.
    pub fn flow(&self) -> (flow: AuthFlow)
        ensures
            flow == self.flow_of(),
    {
        match self {
            Prompt::BotToken => AuthFlow::BotToken,
            _ => AuthFlow::PhoneAndCode,
        }
    }
}

/// The step at which a bootstrap failed.
#[derive(Clone, Copy, Debug, PartialEq, Eq, Structural)]
pub enum AuthenticationError {
    /// The remote side did not say whether the session is authorized.
    SessionCheckFailed,
    /// The identity behind an authorized session could not be fetched.
    IdentityUnavailable,
    /// The credential provider did not supply this credential.
    CredentialUnavailable(Prompt),
    /// No login code could be requested for the phone number.
    LoginCodeRefused,
    /// The login code was not accepted.
    SignInRefused,
    /// The password was not accepted.
    PasswordRefused,
    /// The bot token was not accepted.
    BotTokenRefused,
    /// The new session could not be saved.
    SessionNotSaved,
}

/// Where a bootstrap stands.
#[derive(Clone, Copy, Debug, PartialEq, Eq, Structural)]
pub enum BootstrapPhase {
    Idle,
    CheckingSession,
    FetchingIdentity,
    AwaitingPhone,
    RequestingCode,
    AwaitingCode,
    SigningIn,
    AwaitingPassword,
    CheckingPassword,
    AwaitingBotToken,
    BotSigningIn,
    SavingSession(Identity),
    Done(Identity),
    Failed(AuthenticationError),
}

/// What a bootstrap is told.
#[derive(Debug, PartialEq, Eq)]
pub enum BootstrapEvent {
    /// The connection stands; the bootstrap may begin.
    Begin,
    /// The remote side takes the session for authorized.
    SessionAuthorized,
    /// The remote side does not take the session for authorized.
    SessionUnauthorized,
    /// The identity behind the session.
    IdentityFetched(Identity),
    /// The credential that was asked for last.
    Credential(String),
    /// A login code is on its way to the phone.
    LoginCodeRequested,
    /// The remote side accepted the credentials.
    SignedIn(Identity),
    /// The remote side accepted the login code and wants the password too.
    PasswordRequired,
    /// The session has been saved.
    SessionSaved,
    /// The step under way failed.
    Failed,
}

/// What a bootstrap wants done.
#[derive(Debug, PartialEq, Eq)]
pub enum BootstrapAction {
    /// Ask the remote side whether the session is authorized.
    CheckAuthorized,
    /// Fetch the identity behind the authorized session.
    FetchIdentity,
    /// Ask the credential provider for this credential.
    Ask(Prompt),
    /// Have a login code sent to this phone number.
    RequestLoginCode { phone: String },
    /// Sign in with the login code.
    SignIn { code: String },
    /// Answer the second factor with the password.
    CheckPassword { password: String },
    /// Sign in with the bot token.
    BotSignIn { token: String },
    /// Export the session from the connection and hand it to the session store.
    SaveSession,
    /// The bootstrap is over: the session is authorized for this identity.
    Finish(Identity),
    /// The bootstrap is over: it failed.
    Abort(AuthenticationError),
    /// Nothing: the event was not expected where the bootstrap stands.
    Ignore,
}

impl BootstrapAction {
    /// Whether the action is part of a sign-in: a prompt for a credential, or a
    /// call that hands a credential to the remote side.
    pub open spec fn signs_in(self) -> bool {
        match self {
            BootstrapAction::Ask(_) => true,
            BootstrapAction::RequestLoginCode { .. } => true,
            BootstrapAction::SignIn { .. } => true,
            BootstrapAction::CheckPassword { .. } => true,
            BootstrapAction::BotSignIn { .. } => true,
            _ => false,
        }
    }

    /// Whether the action is part of a sign-in.
    pub fn is_sign_in(&self) -> (yes: bool)
        ensures
            yes == self.signs_in(),
    {
        match self {
            BootstrapAction::Ask(_) => true,
            BootstrapAction::RequestLoginCode { .. } => true,
            BootstrapAction::SignIn { .. } => true,
            BootstrapAction::CheckPassword { .. } => true,
            BootstrapAction::BotSignIn { .. } => true,
            _ => false,
        }
    }
}

impl BootstrapPhase {
    /// Whether the bootstrap is over, one way or the other.
    pub open spec fn over(self) -> bool {
        self is Done || self is Failed
    }

    /// The error that a failure in this phase amounts to; `None` where nothing
    /// is under way that could fail.
    pub open spec fn failure(self) -> Option<AuthenticationError> {
        match self {
            BootstrapPhase::Idle => None,
            BootstrapPhase::Done(_) => None,
            BootstrapPhase::Failed(_) => None,
            BootstrapPhase::CheckingSession => Some(AuthenticationError::SessionCheckFailed),
            BootstrapPhase::FetchingIdentity => Some(AuthenticationError::IdentityUnavailable),
            BootstrapPhase::AwaitingPhone => Some(
                AuthenticationError::CredentialUnavailable(Prompt::Phone),
            ),
            BootstrapPhase::RequestingCode => Some(AuthenticationError::LoginCodeRefused),
            BootstrapPhase::AwaitingCode => Some(
                AuthenticationError::CredentialUnavailable(Prompt::Code),
            ),
            BootstrapPhase::SigningIn => Some(AuthenticationError::SignInRefused),
            BootstrapPhase::AwaitingPassword => Some(
                AuthenticationError::CredentialUnavailable(Prompt::Password),
            ),
            BootstrapPhase::CheckingPassword => Some(AuthenticationError::PasswordRefused),
            BootstrapPhase::AwaitingBotToken => Some(
                AuthenticationError::CredentialUnavailable(Prompt::BotToken),
            ),
            BootstrapPhase::BotSigningIn => Some(AuthenticationError::BotTokenRefused),
            BootstrapPhase::SavingSession(_) => Some(AuthenticationError::SessionNotSaved),
        }
    }

    /// The flow that this phase belongs to, if it belongs to one alone.
    pub open spec fn flow_of(self) -> Option<AuthFlow> {
        match self {
            BootstrapPhase::AwaitingPhone => Some(AuthFlow::PhoneAndCode),
            BootstrapPhase::RequestingCode => Some(AuthFlow::PhoneAndCode),
            BootstrapPhase::AwaitingCode => Some(AuthFlow::PhoneAndCode),
            BootstrapPhase::SigningIn => Some(AuthFlow::PhoneAndCode),
            BootstrapPhase::AwaitingPassword => Some(AuthFlow::PhoneAndCode),
            BootstrapPhase::CheckingPassword => Some(AuthFlow::PhoneAndCode),
            BootstrapPhase::AwaitingBotToken => Some(AuthFlow::BotToken),
            BootstrapPhase::BotSigningIn => Some(AuthFlow::BotToken),
            _ => None,
        }
    }

    fn failure_of(self) -> (error: Option<AuthenticationError>)
        ensures
            error == self.failure(),
    {
        match self {
            BootstrapPhase::Idle => None,
            BootstrapPhase::Done(_) => None,
            BootstrapPhase::Failed(_) => None,
            BootstrapPhase::CheckingSession => Some(AuthenticationError::SessionCheckFailed),
            BootstrapPhase::FetchingIdentity => Some(AuthenticationError::IdentityUnavailable),
            BootstrapPhase::AwaitingPhone => Some(
                AuthenticationError::CredentialUnavailable(Prompt::Phone),
            ),
            BootstrapPhase::RequestingCode => Some(AuthenticationError::LoginCodeRefused),
            BootstrapPhase::AwaitingCode => Some(
                AuthenticationError::CredentialUnavailable(Prompt::Code),
            ),
            BootstrapPhase::SigningIn => Some(AuthenticationError::SignInRefused),
            BootstrapPhase::AwaitingPassword => Some(
                AuthenticationError::CredentialUnavailable(Prompt::Password),
            ),
            BootstrapPhase::CheckingPassword => Some(AuthenticationError::PasswordRefused),
            BootstrapPhase::AwaitingBotToken => Some(
                AuthenticationError::CredentialUnavailable(Prompt::BotToken),
            ),
            BootstrapPhase::BotSigningIn => Some(AuthenticationError::BotTokenRefused),
            BootstrapPhase::SavingSession(_) => Some(AuthenticationError::SessionNotSaved),
        }
    }
}

/// The bootstrap's state.
#[derive(Clone, Copy, Debug, PartialEq, Eq, Structural)]
pub struct Bootstrap {
    pub flow: AuthFlow,
    pub phase: BootstrapPhase,
}

impl Bootstrap {
    /// The state before anything was done.
    pub open spec fn initial(flow: AuthFlow) -> Bootstrap {
        Bootstrap { flow, phase: BootstrapPhase::Idle }
    }

    /// The state in `phase`, with the flow unchanged.
    pub open spec fn at(self, phase: BootstrapPhase) -> Bootstrap {
        Bootstrap { flow: self.flow, phase }
    }

    /// The state after `event`, and the action that `step` returns.
    pub open spec fn next(self, event: BootstrapEvent) -> (Bootstrap, BootstrapAction) {
        match (self.phase, event) {
            (BootstrapPhase::Done(_), _) => (self, BootstrapAction::Ignore),
            (BootstrapPhase::Failed(_), _) => (self, BootstrapAction::Ignore),
            (_, BootstrapEvent::Failed) => match self.phase.failure() {
                Some(error) => (
                    self.at(BootstrapPhase::Failed(error)),
                    BootstrapAction::Abort(error),
                ),
                None => (self, BootstrapAction::Ignore),
            },
            (BootstrapPhase::Idle, BootstrapEvent::Begin) => (
                self.at(BootstrapPhase::CheckingSession),
                BootstrapAction::CheckAuthorized,
            ),
            (BootstrapPhase::CheckingSession, BootstrapEvent::SessionAuthorized) => (
                self.at(BootstrapPhase::FetchingIdentity),
                BootstrapAction::FetchIdentity,
            ),
            (BootstrapPhase::CheckingSession, BootstrapEvent::SessionUnauthorized) => match self.flow {
                AuthFlow::PhoneAndCode => (
                    self.at(BootstrapPhase::AwaitingPhone),
                    BootstrapAction::Ask(Prompt::Phone),
                ),
                AuthFlow::BotToken => (
                    self.at(BootstrapPhase::AwaitingBotToken),
                    BootstrapAction::Ask(Prompt::BotToken),
                ),
            },
            (BootstrapPhase::FetchingIdentity, BootstrapEvent::IdentityFetched(identity)) => (
                self.at(BootstrapPhase::Done(identity)),
                BootstrapAction::Finish(identity),
            ),
            (BootstrapPhase::AwaitingPhone, BootstrapEvent::Credential(phone)) => (
                self.at(BootstrapPhase::RequestingCode),
                BootstrapAction::RequestLoginCode { phone },
            ),
            (BootstrapPhase::RequestingCode, BootstrapEvent::LoginCodeRequested) => (
                self.at(BootstrapPhase::AwaitingCode),
                BootstrapAction::Ask(Prompt::Code),
            ),
            (BootstrapPhase::AwaitingCode, BootstrapEvent::Credential(code)) => (
                self.at(BootstrapPhase::SigningIn),
                BootstrapAction::SignIn { code },
            ),
            (BootstrapPhase::SigningIn, BootstrapEvent::SignedIn(identity)) => (
                self.at(BootstrapPhase::SavingSession(identity)),
                BootstrapAction::SaveSession,
            ),
            (BootstrapPhase::SigningIn, BootstrapEvent::PasswordRequired) => (
                self.at(BootstrapPhase::AwaitingPassword),
                BootstrapAction::Ask(Prompt::Password),
            ),
            (BootstrapPhase::AwaitingPassword, BootstrapEvent::Credential(password)) => (
                self.at(BootstrapPhase::CheckingPassword),
                BootstrapAction::CheckPassword { password },
            ),
            (BootstrapPhase::CheckingPassword, BootstrapEvent::SignedIn(identity)) => (
                self.at(BootstrapPhase::SavingSession(identity)),
                BootstrapAction::SaveSession,
            ),
            (BootstrapPhase::AwaitingBotToken, BootstrapEvent::Credential(token)) => (
                self.at(BootstrapPhase::BotSigningIn),
                BootstrapAction::BotSignIn { token },
            ),
            (BootstrapPhase::BotSigningIn, BootstrapEvent::SignedIn(identity)) => (
                self.at(BootstrapPhase::SavingSession(identity)),
                BootstrapAction::SaveSession,
            ),
            (BootstrapPhase::SavingSession(identity), BootstrapEvent::SessionSaved) => (
                self.at(BootstrapPhase::Done(identity)),
                BootstrapAction::Finish(identity),
            ),
            _ => (self, BootstrapAction::Ignore),
        }
    }

    /// A bootstrap that signs in by `flow` where it has to.
    pub fn new(flow: AuthFlow) -> (bootstrap: Bootstrap)
        ensures
            bootstrap == Bootstrap::initial(flow),
    {
        Bootstrap { flow, phase: BootstrapPhase::Idle }
    }

    /// Whether the bootstrap is over, one way or the other.
    pub fn is_over(&self) -> (over: bool)
        ensures
            over == self.phase.over(),
    {
        match self.phase {
            BootstrapPhase::Done(_) => true,
            BootstrapPhase::Failed(_) => true,
            _ => false,
        }
    }

    /// How the bootstrap ended, if it is over.
    pub fn outcome(&self) -> (outcome: Option<Result<Identity, AuthenticationError>>)
        ensures
            outcome == match self.phase {
                BootstrapPhase::Done(identity) => Some(Ok(identity)),
                BootstrapPhase::Failed(error) => Some(Err(error)),
                _ => None,
            },
    {
        match self.phase {
            BootstrapPhase::Done(identity) => Some(Ok(identity)),
            BootstrapPhase::Failed(error) => Some(Err(error)),
            _ => None,
        }
    }

    /// Takes one event and returns what to do next.
    pub fn step(&mut self, event: BootstrapEvent) -> (action: BootstrapAction)
        ensures
            (*final(self), action) == old(self).next(event),
    {
        match (self.phase, event) {
            (BootstrapPhase::Done(_), _) => BootstrapAction::Ignore,
            (BootstrapPhase::Failed(_), _) => BootstrapAction::Ignore,
            (phase, BootstrapEvent::Failed) => match phase.failure_of() {
                Some(error) => {
                    self.phase = BootstrapPhase::Failed(error);
                    BootstrapAction::Abort(error)
                },
                None => BootstrapAction::Ignore,
            },
            (BootstrapPhase::Idle, BootstrapEvent::Begin) => {
                self.phase = BootstrapPhase::CheckingSession;
                BootstrapAction::CheckAuthorized
            },
            (BootstrapPhase::CheckingSession, BootstrapEvent::SessionAuthorized) => {
                self.phase = BootstrapPhase::FetchingIdentity;
                BootstrapAction::FetchIdentity
            },
            (BootstrapPhase::CheckingSession, BootstrapEvent::SessionUnauthorized) => match self.flow {
                AuthFlow::PhoneAndCode => {
                    self.phase = BootstrapPhase::AwaitingPhone;
                    BootstrapAction::Ask(Prompt::Phone)
                },
                AuthFlow::BotToken => {
                    self.phase = BootstrapPhase::AwaitingBotToken;
                    BootstrapAction::Ask(Prompt::BotToken)
                },
            },
            (BootstrapPhase::FetchingIdentity, BootstrapEvent::IdentityFetched(identity)) => {
                self.phase = BootstrapPhase::Done(identity);
                BootstrapAction::Finish(identity)
            },
            (BootstrapPhase::AwaitingPhone, BootstrapEvent::Credential(phone)) => {
                self.phase = BootstrapPhase::RequestingCode;
                BootstrapAction::RequestLoginCode { phone }
            },
            (BootstrapPhase::RequestingCode, BootstrapEvent::LoginCodeRequested) => {
                self.phase = BootstrapPhase::AwaitingCode;
                BootstrapAction::Ask(Prompt::Code)
            },
            (BootstrapPhase::AwaitingCode, BootstrapEvent::Credential(code)) => {
                self.phase = BootstrapPhase::SigningIn;
                BootstrapAction::SignIn { code }
            },
            (BootstrapPhase::SigningIn, BootstrapEvent::SignedIn(identity)) => {
                self.phase = BootstrapPhase::SavingSession(identity);
                BootstrapAction::SaveSession
            },
            (BootstrapPhase::SigningIn, BootstrapEvent::PasswordRequired) => {
                self.phase = BootstrapPhase::AwaitingPassword;
                BootstrapAction::Ask(Prompt::Password)
            },
            (BootstrapPhase::AwaitingPassword, BootstrapEvent::Credential(password)) => {
                self.phase = BootstrapPhase::CheckingPassword;
                BootstrapAction::CheckPassword { password }
            },
            (BootstrapPhase::CheckingPassword, BootstrapEvent::SignedIn(identity)) => {
                self.phase = BootstrapPhase::SavingSession(identity);
                BootstrapAction::SaveSession
            },
            (BootstrapPhase::AwaitingBotToken, BootstrapEvent::Credential(token)) => {
                self.phase = BootstrapPhase::BotSigningIn;
                BootstrapAction::BotSignIn { token }
            },
            (BootstrapPhase::BotSigningIn, BootstrapEvent::SignedIn(identity)) => {
                self.phase = BootstrapPhase::SavingSession(identity);
                BootstrapAction::SaveSession
            },
            (BootstrapPhase::SavingSession(identity), BootstrapEvent::SessionSaved) => {
                self.phase = BootstrapPhase::Done(identity);
                BootstrapAction::Finish(identity)
            },
            _ => BootstrapAction::Ignore,
        }
    }
}

impl BootstrapPhase {
    /// Whether no sign-in can follow any more: the session was found authorized,
    /// or the sign-in has been made, or the bootstrap is over.
    pub open spec fn past_sign_in(self) -> bool {
        self is FetchingIdentity || self is SavingSession || self is Done || self is Failed
    }
}

impl Bootstrap {
    /// The state after the events of `events`, taken in turn.
    pub open spec fn after(self, events: Seq<BootstrapEvent>) -> Bootstrap
        decreases events.len(),
    {
        if events.len() == 0 {
            self
        } else {
            self.after(events.drop_last()).next(events.last()).0
        }
    }

    /// The action that the last event of `events` brings; `Ignore` when there is
    /// no event.
    pub open spec fn last_action(self, events: Seq<BootstrapEvent>) -> BootstrapAction {
        if events.len() == 0 {
            BootstrapAction::Ignore
        } else {
            self.after(events.drop_last()).next(events.last()).1
        }
    }

    /// Whether the phase fits the flow: a phase of one flow's sign-in occurs only
    /// in a bootstrap of that flow.
    pub open spec fn coherent(self) -> bool {
        self.phase.flow_of() matches Some(flow) ==> flow == self.flow
    }
}

/// A session that the remote side takes for authorized is not signed in again:
/// the bootstrap fetches the identity and ends with it, and whatever it is told
/// from the moment the session was found authorized, it never asks for a
/// credential and never hands one to the remote side.
pub proof fn lemma_authorized_session_needs_no_sign_in(
    flow: AuthFlow,
    identity: Identity,
    later: Seq<BootstrapEvent>,
)
    ensures
        Bootstrap::initial(flow).next(BootstrapEvent::Begin).1 == BootstrapAction::CheckAuthorized,
        Bootstrap::initial(flow).next(BootstrapEvent::Begin).0.next(
            BootstrapEvent::SessionAuthorized,
        ) == (
            Bootstrap { flow, phase: BootstrapPhase::FetchingIdentity },
            BootstrapAction::FetchIdentity,
        ),
        (Bootstrap { flow, phase: BootstrapPhase::FetchingIdentity }).next(
            BootstrapEvent::IdentityFetched(identity),
        ) == (
            Bootstrap { flow, phase: BootstrapPhase::Done(identity) },
            BootstrapAction::Finish(identity),
        ),
        !(Bootstrap { flow, phase: BootstrapPhase::FetchingIdentity }).last_action(
            later,
        ).signs_in(),
{
    lemma_no_sign_in_past_sign_in(Bootstrap { flow, phase: BootstrapPhase::FetchingIdentity }, later);
}

/// Once the session was found authorized or the sign-in has been made, no event
/// brings a prompt or a sign-in call any more.
pub proof fn lemma_no_sign_in_past_sign_in(start: Bootstrap, later: Seq<BootstrapEvent>)
    requires
        start.phase.past_sign_in(),
    ensures
        start.after(later).phase.past_sign_in(),
        !start.last_action(later).signs_in(),
    decreases later.len(),
{
    if later.len() > 0 {
        lemma_no_sign_in_past_sign_in(start, later.drop_last());
    }
}

/// A bootstrap reports success in two cases only: the session was authorized
/// from the start and its identity has been fetched, or a sign-in was made and the
/// new session has been saved since. And a session is saved exactly when the
/// remote side has just accepted the credentials.
pub proof fn lemma_success_follows_save(state: Bootstrap, event: BootstrapEvent)
    ensures
        state.next(event).1 matches BootstrapAction::Finish(identity) ==> {
            ||| (state.phase == BootstrapPhase::FetchingIdentity && event
                == BootstrapEvent::IdentityFetched(identity))
            ||| (state.phase == BootstrapPhase::SavingSession(identity) && event
                == BootstrapEvent::SessionSaved)
        },
        state.next(event).0.phase matches BootstrapPhase::Done(identity) ==> {
            ||| state.phase == BootstrapPhase::Done(identity)
            ||| state.next(event).1 == BootstrapAction::Finish(identity)
        },
        state.next(event).1 == BootstrapAction::SaveSession <==> (event is SignedIn && (
        state.phase == BootstrapPhase::SigningIn || state.phase
            == BootstrapPhase::CheckingPassword || state.phase == BootstrapPhase::BotSigningIn)),
        state.next(event).1 == BootstrapAction::SaveSession ==> state.next(event).0.phase
            == BootstrapPhase::SavingSession(event->SignedIn_0),
{
}

impl Bootstrap {
    /// Whether one of `events` brought a prompt or a sign-in call.
    pub open spec fn signed_in_among(self, events: Seq<BootstrapEvent>) -> bool
        decreases events.len(),
    {
        if events.len() == 0 {
            false
        } else {
            self.signed_in_among(events.drop_last()) || self.last_action(events).signs_in()
        }
    }

    /// Whether one of `events` brought the request to save the session.
    pub open spec fn saved_among(self, events: Seq<BootstrapEvent>) -> bool
        decreases events.len(),
    {
        if events.len() == 0 {
            false
        } else {
            self.saved_among(events.drop_last()) || self.last_action(events)
                == BootstrapAction::SaveSession
        }
    }
}

/// A bootstrap that starts on a session which the remote side takes for
/// authorized never signs in: from its first event to its last, none brings a
/// prompt or a sign-in call.
pub proof fn lemma_authorized_start_never_signs_in(flow: AuthFlow, events: Seq<BootstrapEvent>)
    requires
        events.len() >= 2,
        events[0] == BootstrapEvent::Begin,
        events[1] == BootstrapEvent::SessionAuthorized,
    ensures
        !Bootstrap::initial(flow).signed_in_among(events),
        Bootstrap::initial(flow).after(events).phase.past_sign_in(),
    decreases events.len(),
{
    let start = Bootstrap::initial(flow);
    if events.len() == 2 {
        let one = events.drop_last();
        let none = one.drop_last();
        assert(start.after(none) == start);
        assert(!start.signed_in_among(none));
        assert(!start.signed_in_among(one));
    } else {
        let before = events.drop_last();
        lemma_authorized_start_never_signs_in(flow, before);
    }
}

/// A bootstrap that has signed in reports success only after it has asked for
/// the new session to be saved: whatever it is told from its start, if it has
/// ended with an identity and any prompt or sign-in call was made on the way,
/// then the request to save the session was made too.
pub proof fn lemma_sign_in_is_saved_before_success(flow: AuthFlow, events: Seq<BootstrapEvent>)
    ensures
        ({
            let start = Bootstrap::initial(flow);
            let end = start.after(events).phase;
            &&& (end is Idle || end is CheckingSession || end is FetchingIdentity)
                ==> !start.signed_in_among(events)
            &&& end is SavingSession ==> start.saved_among(events)
            &&& end is Done && start.signed_in_among(events) ==> start.saved_among(events)
        }),
    decreases events.len(),
{
    if events.len() > 0 {
        lemma_sign_in_is_saved_before_success(flow, events.drop_last());
    }
}

/// A bootstrap keeps to its flow: the flow never changes, and every credential
/// it asks for, and every sign-in call it makes, belongs to that flow.
pub proof fn lemma_one_flow_throughout(state: Bootstrap, event: BootstrapEvent)
    requires
        state.coherent(),
    ensures
        state.next(event).0.flow == state.flow,
        state.next(event).0.coherent(),
        state.next(event).1 matches BootstrapAction::Ask(prompt) ==> prompt.flow_of()
            == state.flow,
        state.next(event).1 is BotSignIn ==> state.flow == AuthFlow::BotToken,
        (state.next(event).1 is RequestLoginCode || state.next(event).1 is SignIn || state.next(
            event,
        ).1 is CheckPassword) ==> state.flow == AuthFlow::PhoneAndCode,
{
}

/// The first step that fails ends the bootstrap with the error of that step, and
/// a bootstrap that is over stays as it is.
pub proof fn lemma_failure_is_final(state: Bootstrap, later: Seq<BootstrapEvent>)
    requires
        state.phase.failure() is Some,
    ensures
        state.next(BootstrapEvent::Failed) == (
            state.at(BootstrapPhase::Failed(state.phase.failure()->0)),
            BootstrapAction::Abort(state.phase.failure()->0),
        ),
        state.next(BootstrapEvent::Failed).0.after(later) == state.next(
            BootstrapEvent::Failed,
        ).0,
        later.len() > 0 ==> state.next(BootstrapEvent::Failed).0.last_action(later)
            == BootstrapAction::Ignore,
{
    lemma_over_is_final(state.next(BootstrapEvent::Failed).0, later);
}

/// A bootstrap that is over stays as it is and asks for nothing more.
pub proof fn lemma_over_is_final(state: Bootstrap, later: Seq<BootstrapEvent>)
    requires
        state.phase.over(),
    ensures
        state.after(later) == state,
        later.len() > 0 ==> state.last_action(later) == BootstrapAction::Ignore,
    decreases later.len(),
{
    if later.len() > 0 {
        lemma_over_is_final(state, later.drop_last());
    }
}

} // verus!
