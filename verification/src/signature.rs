//! The rule that a function must meet to be registered as a handler: it is
//! asynchronous, takes the connection and a reference to the event and nothing
//! else, and takes neither as `self`.

use crate::handler::Process;
use vstd::prelude::*;
use vstd::string::StrSliceExecFns;

verus! {

/// A parameter of a function, as far as the rule looks at it.
#[derive(Debug, PartialEq, Eq)]
pub enum Param {
    /// `self`, in any form.
    Receiver,
    /// Any other parameter, with its type as written.
    Typed(String),
}

/// A function, as far as the rule looks at it.
#[derive(Debug, PartialEq, Eq)]
pub struct HandlerFn {
    pub is_async: bool,
    pub params: Vec<Param>,
}

/// Why a function cannot be registered.
#[derive(Clone, Copy, Debug, PartialEq, Eq, Structural)]
pub enum SignatureError {
    /// The function is not asynchronous.
    NotAsync,
    /// The function does not take exactly two parameters.
    WrongParamCount,
    /// One of the two parameters is `self`.
    SelfParam,
    /// The second parameter is no reference to the event that the capability
    /// stands for.
    UnknownParamType,
}

/// Whether `text` ends with `suffix`.
pub open spec fn ends_with(text: Seq<char>, suffix: Seq<char>) -> bool {
    suffix.len() <= text.len() && text.subrange(text.len() - suffix.len(), text.len() as int)
        == suffix
}

/// Whether the type written as `ty` is taken for a reference to `event`: it
/// begins with `&` and ends with the name of the event.
pub open spec fn refers_to(ty: Seq<char>, event: Seq<char>) -> bool {
    ty.len() > 0 && ty[0] == '&' && ends_with(ty, event)
}

/// What the rule says of `function` as a handler of the event named `event`.
pub open spec fn judged(function: HandlerFn, event: Seq<char>) -> Result<(), SignatureError> {
    if !function.is_async {
        Err(SignatureError::NotAsync)
    } else if function.params.len() != 2 {
        Err(SignatureError::WrongParamCount)
    } else if function.params[0] is Receiver || function.params[1] is Receiver {
        Err(SignatureError::SelfParam)
    } else if !refers_to(function.params[1]->Typed_0@, event) {
        Err(SignatureError::UnknownParamType)
    } else {
        Ok(())
    }
}

/// The capability that `function` is registered with, where the rule lets it
/// pass as a handler of the event named `event`.
pub open spec fn registered(function: HandlerFn, event: Seq<char>, capability: Process) -> Result<
    Process,
    SignatureError,
> {
    match judged(function, event) {
        Ok(()) => Ok(capability),
        Err(error) => Err(error),
    }
}

/// Tells whether `text` ends with `suffix`.
pub fn has_suffix(text: &str, suffix: &str) -> (yes: bool)
    ensures
        yes == ends_with(text@, suffix@),
{
    let text_len = text.unicode_len();
    let suffix_len = suffix.unicode_len();
    if suffix_len > text_len {
        return false;
    }
    let start = text_len - suffix_len;
    let mut matched: usize = 0;
    while matched < suffix_len
        invariant
            text_len == text@.len(),
            suffix_len == suffix@.len(),
            start + suffix_len == text_len,
            matched <= suffix_len,
            forall|i: int| 0 <= i < matched ==> text@[start + i] == suffix@[i],
        decreases suffix_len - matched,
    {
        if text.get_char(start + matched) != suffix.get_char(matched) {
            proof {
                let tail = text@.subrange(text@.len() - suffix@.len(), text@.len() as int);
                assert(tail[matched as int] == text@[start + matched]);
            }
            return false;
        }
        matched = matched + 1;
    }
    proof {
        let tail = text@.subrange(text@.len() - suffix@.len(), text@.len() as int);
        assert(tail =~= suffix@);
    }
    true
}

/// Tells whether the type written as `ty` is taken for a reference to `event`.
pub fn is_reference_to(ty: &str, event: &str) -> (yes: bool)
    ensures
        yes == refers_to(ty@, event@),
{
    ty.unicode_len() > 0 && ty.get_char(0) == '&' && has_suffix(ty, event)
}

/// Holds `function` against the rule, as a handler of the event named `event`.
/// The first demand that is not met decides the error.
pub fn check(function: &HandlerFn, event: &str) -> (verdict: Result<(), SignatureError>)
    ensures
        verdict == judged(*function, event@),
{
    if !function.is_async {
        return Err(SignatureError::NotAsync);
    }
    if function.params.len() != 2 {
        return Err(SignatureError::WrongParamCount);
    }
    match (&function.params[0], &function.params[1]) {
        (Param::Typed(_), Param::Typed(ty)) => {
            if is_reference_to(ty.as_str(), event) {
                Ok(())
            } else {
                Err(SignatureError::UnknownParamType)
            }
        },
        _ => Err(SignatureError::SelfParam),
    }
}

fn register(function: &HandlerFn, event: &str, capability: Process) -> (verdict: Result<
    Process,
    SignatureError,
>)
    ensures
        verdict == registered(*function, event@, capability),
{
    match check(function, event) {
        Ok(()) => Ok(capability),
        Err(error) => Err(error),
    }
}

/// Registers `function` as a handler of new messages: its second parameter
/// must refer to a `Message`.
pub fn new_message(function: &HandlerFn) -> (verdict: Result<Process, SignatureError>)
    ensures
        verdict == registered(*function, "Message"@, Process::NewMessageProcess),
{
    register(function, "Message", Process::NewMessageProcess)
}

/// Registers `function` as a handler of edited messages: its second parameter
/// must refer to a `Message`.
pub fn message_edited(function: &HandlerFn) -> (verdict: Result<Process, SignatureError>)
    ensures
        verdict == registered(*function, "Message"@, Process::MessageEditedProcess),
{
    register(function, "Message", Process::MessageEditedProcess)
}

/// Registers `function` as a handler of deleted messages: its second parameter
/// must refer to a `MessageDeletion`.
pub fn message_deleted(function: &HandlerFn) -> (verdict: Result<Process, SignatureError>)
    ensures
        verdict == registered(*function, "MessageDeletion"@, Process::MessageDeletedProcess),
{
    register(function, "MessageDeletion", Process::MessageDeletedProcess)
}

/// Registers `function` as a handler of callback queries: its second parameter
/// must refer to a `CallbackQuery`.
pub fn callback_query(function: &HandlerFn) -> (verdict: Result<Process, SignatureError>)
    ensures
        verdict == registered(*function, "CallbackQuery"@, Process::CallbackQueryProcess),
{
    register(function, "CallbackQuery", Process::CallbackQueryProcess)
}

/// Registers `function` as a handler of inline queries: its second parameter
/// must refer to an `InlineQuery`.
pub fn inline_query(function: &HandlerFn) -> (verdict: Result<Process, SignatureError>)
    ensures
        verdict == registered(*function, "InlineQuery"@, Process::InlineQueryProcess),
{
    register(function, "InlineQuery", Process::InlineQueryProcess)
}

/// Registers `function` as a handler of transport-level events: its second
/// parameter must refer to an `Update`.
pub fn raw(function: &HandlerFn) -> (verdict: Result<Process, SignatureError>)
    ensures
        verdict == registered(*function, "Update"@, Process::RawProcess),
{
    register(function, "Update", Process::RawProcess)
}

} // verus!
