//! A supervisor for one long-lived session with a remote service: it keeps the
//! connection alive across transient failures, signs in once, and routes each
//! inbound event to an ordered registry of handlers.
//!
//! The library decides; the program around it performs. Every component is a
//! state machine from the current state and an observed event to the next state
//! and the action to perform, so that nothing here waits, sleeps or talks to the
//! network.

pub mod backoff;
pub mod bootstrap;
pub mod client;
pub mod connection;
pub mod handler;
pub mod input;
pub mod router;
pub mod run;
pub mod signature;
pub mod supervisor;
pub mod traits;

pub use backoff::{backoff_delay, RetryState};
pub use bootstrap::{
    AuthFlow, AuthenticationError, Bootstrap, BootstrapAction, BootstrapEvent, BootstrapPhase,
    Identity, Prompt,
};
pub use client::{
    credential_event, saved_event, session_from, Auth, AuthWithBotToken, AuthWithPhoneAndCode, Client,
    ClientBuilder, ConnectConfig, FileSessionStore, InitParams, PromptError, ProviderError,
    SessionSource, SessionStore, Setting, StaticBotToken, StoreHandle,
};
pub use connection::ConnectionSlot;
pub use handler::{handler_at, EventKind, Handler, HandlerError, Module, Outcome, Position, Process};
pub use input::strip_line_end;
pub use router::{
    decided_by, find_next, Dispatch, DispatchResult, DispatchStep, Pass, PassResult, Walk, WalkState, WalkStep,
};
pub use signature::{
    callback_query, inline_query, message_deleted, message_edited, new_message, raw, HandlerFn,
    Param, SignatureError,
};
pub use supervisor::{Action, ErrorKind, Event, ExitReason, FatalError, Phase, Supervisor};
pub use traits::{ChatExt, ChatKind, MessageExt, MessageOrigin};
