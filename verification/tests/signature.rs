use teleser::{
    callback_query, inline_query, message_deleted, message_edited, new_message, raw, HandlerFn,
    Param, Process, SignatureError,
};
use teleser::signature::{check, has_suffix, is_reference_to};

fn typed(ty: &str) -> Param {
    Param::Typed(ty.to_string())
}

fn handler_fn(event_type: &str) -> HandlerFn {
    HandlerFn { is_async: true, params: vec![typed("& InnerClient"), typed(event_type)] }
}

#[test]
fn well_formed_handlers_get_their_capability() {
    assert_eq!(new_message(&handler_fn("& Message")), Ok(Process::NewMessageProcess));
    assert_eq!(message_edited(&handler_fn("& Message")), Ok(Process::MessageEditedProcess));
    assert_eq!(
        message_deleted(&handler_fn("& MessageDeletion")),
        Ok(Process::MessageDeletedProcess)
    );
    assert_eq!(
        callback_query(&handler_fn("& CallbackQuery")),
        Ok(Process::CallbackQueryProcess)
    );
    assert_eq!(inline_query(&handler_fn("& InlineQuery")), Ok(Process::InlineQueryProcess));
    assert_eq!(raw(&handler_fn("& tl :: enums :: Update")), Ok(Process::RawProcess));
}

#[test]
fn synchronous_function_is_refused_first() {
    let function = HandlerFn { is_async: false, params: vec![Param::Receiver] };
    assert_eq!(new_message(&function), Err(SignatureError::NotAsync));
    assert_eq!(raw(&function), Err(SignatureError::NotAsync));
}

#[test]
fn parameter_count_must_be_two() {
    for params in [
        vec![],
        vec![typed("& Message")],
        vec![typed("& InnerClient"), typed("& Message"), typed("& Message")],
    ] {
        let function = HandlerFn { is_async: true, params };
        assert_eq!(new_message(&function), Err(SignatureError::WrongParamCount));
    }
}

#[test]
fn self_parameter_is_refused_in_either_place() {
    let first = HandlerFn { is_async: true, params: vec![Param::Receiver, typed("& Message")] };
    assert_eq!(message_edited(&first), Err(SignatureError::SelfParam));
    let second = HandlerFn { is_async: true, params: vec![typed("& InnerClient"), Param::Receiver] };
    assert_eq!(message_edited(&second), Err(SignatureError::SelfParam));
}

#[test]
fn event_parameter_must_be_a_reference_to_the_event() {
    assert_eq!(new_message(&handler_fn("Message")), Err(SignatureError::UnknownParamType));
    assert_eq!(new_message(&handler_fn("& Update")), Err(SignatureError::UnknownParamType));
    assert_eq!(new_message(&handler_fn("")), Err(SignatureError::UnknownParamType));
    assert_eq!(new_message(&handler_fn("&")), Err(SignatureError::UnknownParamType));
    assert_eq!(
        message_deleted(&handler_fn("& Message")),
        Err(SignatureError::UnknownParamType)
    );
    assert_eq!(
        callback_query(&handler_fn("& InlineQuery")),
        Err(SignatureError::UnknownParamType)
    );
    assert_eq!(
        inline_query(&handler_fn("& CallbackQuery")),
        Err(SignatureError::UnknownParamType)
    );
    assert_eq!(raw(&handler_fn("& Message")), Err(SignatureError::UnknownParamType));
}

#[test]
fn only_the_ends_of_the_type_are_looked_at() {
    assert_eq!(new_message(&handler_fn("&Message")), Ok(Process::NewMessageProcess));
    assert_eq!(new_message(&handler_fn("& mut Message")), Ok(Process::NewMessageProcess));
    assert_eq!(new_message(&handler_fn("& types :: Message")), Ok(Process::NewMessageProcess));
    assert_eq!(
        new_message(&handler_fn("& Message ")),
        Err(SignatureError::UnknownParamType)
    );
}

#[test]
fn the_type_of_the_first_parameter_is_free() {
    let function = HandlerFn { is_async: true, params: vec![typed("u8"), typed("& Message")] };
    assert_eq!(new_message(&function), Ok(Process::NewMessageProcess));
}

#[test]
fn check_reports_the_first_broken_demand() {
    let worst = HandlerFn { is_async: false, params: vec![Param::Receiver] };
    assert_eq!(check(&worst, "Message"), Err(SignatureError::NotAsync));
    let three = HandlerFn {
        is_async: true,
        params: vec![Param::Receiver, Param::Receiver, typed("Message")],
    };
    assert_eq!(check(&three, "Message"), Err(SignatureError::WrongParamCount));
    let selfish = HandlerFn { is_async: true, params: vec![Param::Receiver, typed("Message")] };
    assert_eq!(check(&selfish, "Message"), Err(SignatureError::SelfParam));
    assert_eq!(check(&handler_fn("& Message"), "Message"), Ok(()));
}

#[test]
fn suffix_and_reference_tests() {
    assert!(has_suffix("abc", "bc"));
    assert!(has_suffix("abc", "abc"));
    assert!(has_suffix("abc", ""));
    assert!(has_suffix("", ""));
    assert!(!has_suffix("abc", "ab"));
    assert!(!has_suffix("bc", "abc"));
    assert!(has_suffix("héllo wörld", "wörld"));
    assert!(!has_suffix("héllo", "hello"));
    assert!(is_reference_to("& Message", "Message"));
    assert!(is_reference_to("&", ""));
    assert!(!is_reference_to("", ""));
    assert!(!is_reference_to("Message", "Message"));
    assert!(!is_reference_to(" & Message", "Message"));
}
