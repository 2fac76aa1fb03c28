//! The registry: modules, their handlers, and the capability each handler declares.

use vstd::prelude::*;

verus! {

/// The kind of an inbound event.
#[derive(Clone, Copy, Debug, PartialEq, Eq, Structural)]
pub enum EventKind {
    NewMessage,
    MessageEdited,
    MessageDeleted,
    CallbackQuery,
    InlineQuery,
    /// A transport-level event that no other kind describes.
    Raw,
}

/// The capability of a handler: the one kind of event it accepts, or, for
/// `UpdateProcess`, every event whatever its kind.
#[derive(Clone, Copy, Debug, PartialEq, Eq, Structural)]
pub enum Process {
    UpdateProcess,
    NewMessageProcess,
    MessageEditedProcess,
    MessageDeletedProcess,
    CallbackQueryProcess,
    InlineQueryProcess,
    RawProcess,
}

impl Process {
    /// The capability that accepts events of `kind` and of no other kind.
    pub open spec fn specific(kind: EventKind) -> Process {
        match kind {
            EventKind::NewMessage => Process::NewMessageProcess,
            EventKind::MessageEdited => Process::MessageEditedProcess,
            EventKind::MessageDeleted => Process::MessageDeletedProcess,
            EventKind::CallbackQuery => Process::CallbackQueryProcess,
            EventKind::InlineQuery => Process::InlineQueryProcess,
            EventKind::Raw => Process::RawProcess,
        }
    }

    /// Whether a handler with this capability is offered events of `kind`.
    pub open spec fn accepts(self, kind: EventKind) -> bool {
        self == Process::UpdateProcess || self == Process::specific(kind)
    }

    /// The capability that accepts events of `kind` and of no other kind.
    pub fn for_kind(kind: EventKind) -> (capability: Process)
        ensures
            capability == Process::specific(kind),
            capability != Process::UpdateProcess,
    {
        match kind {
            EventKind::NewMessage => Process::NewMessageProcess,
            EventKind::MessageEdited => Process::MessageEditedProcess,
            EventKind::MessageDeleted => Process::MessageDeletedProcess,
            EventKind::CallbackQuery => Process::CallbackQueryProcess,
            EventKind::InlineQuery => Process::InlineQueryProcess,
            EventKind::Raw => Process::RawProcess,
        }
    }

    /// Whether this is the capability that receives every event.
    pub fn is_update(&self) -> (yes: bool)
        ensures
            yes == (*self == Process::UpdateProcess),
    {
        match self {
            Process::UpdateProcess => true,
            _ => false,
        }
    }

    /// Whether a handler with this capability is offered events of `kind`.
    pub fn is_offered(&self, kind: EventKind) -> (yes: bool)
        ensures
            yes == self.accepts(kind),
    {
        self.is_update() || *self == Process::for_kind(kind)
    }
}

/// What went wrong inside a handler, in words.
#[derive(Debug, PartialEq, Eq)]
pub struct HandlerError {
    pub message: String,
}

/// What a handler answers when it is offered an event.
#[derive(Debug, PartialEq, Eq)]
pub enum Outcome {
    /// The handler leaves the event to the handlers after it.
    NotClaimed,
    /// The handler has dealt with the event.
    Claimed,
    /// The handler broke on the event.
    Failed(HandlerError),
}

impl Outcome {
    /// An outcome that ends the walk: the event was claimed, or the handler failed.
    pub open spec fn decisive(self) -> bool {
        !(self is NotClaimed)
    }

    /// Whether this outcome ends the walk.
    pub fn is_decisive(&self) -> (yes: bool)
        ensures
            yes == self.decisive(),
    {
        match self {
            Outcome::NotClaimed => false,
            _ => true,
        }
    }

    /// The outcome of a handler that reports `Ok(claimed)` or an error.
    pub fn from_result(result: Result<bool, HandlerError>) -> (outcome: Outcome)
        ensures
            outcome == match result {
                Ok(true) => Outcome::Claimed,
                Ok(false) => Outcome::NotClaimed,
                Err(error) => Outcome::Failed(error),
            },
    {
        match result {
            Ok(true) => Outcome::Claimed,
            Ok(false) => Outcome::NotClaimed,
            Err(error) => Outcome::Failed(error),
        }
    }
}

/// One unit of event handling: a name and the capability it declares.
#[derive(Debug, PartialEq, Eq)]
pub struct Handler {
    pub id: String,
    pub process: Process,
}

/// A named, ordered group of handlers.
#[derive(Debug, PartialEq, Eq)]
pub struct Module {
    pub id: String,
    pub name: String,
    pub handlers: Vec<Handler>,
}

/// The place of a handler in a registry: the index of its module, and its index
/// among that module's handlers.
#[derive(Clone, Copy, Debug, PartialEq, Eq, Structural)]
pub struct Position {
    pub module: usize,
    pub handler: usize,
}

impl Position {
    /// Whether a handler stands at this position of `modules`.
    pub open spec fn within(self, modules: Seq<Module>) -> bool {
        self.module < modules.len() && self.handler < modules[self.module as int].handlers.len()
    }

    /// Whether this position comes strictly before `other` in evaluation order:
    /// module order first, then handler order inside a module.
    pub open spec fn precedes(self, other: Position) -> bool {
        self.module < other.module || (self.module == other.module && self.handler
            < other.handler)
    }

    /// Whether this position is `other` or comes before it.
    pub open spec fn at_or_before(self, other: Position) -> bool {
        self == other || self.precedes(other)
    }
}

/// The capability declared by the handler at `position`.
pub open spec fn capability_at(modules: Seq<Module>, position: Position) -> Process {
    modules[position.module as int].handlers[position.handler as int].process
}

/// Looks up the handler at `position`, if there is one.
pub fn handler_at(modules: &Vec<Module>, position: Position) -> (found: Option<&Handler>)
    ensures
        found is Some <==> position.within(modules@),
        found is Some ==> *found->0 == modules[position.module as int].handlers[position.handler as int],
{
    if position.module < modules.len() {
        let module = &modules[position.module];
        if position.handler < module.handlers.len() {
            Some(&module.handlers[position.handler])
        } else {
            None
        }
    } else {
        None
    }
}

} // verus!
