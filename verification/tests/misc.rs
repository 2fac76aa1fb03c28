use teleser::{strip_line_end, ChatExt, ChatKind, ConnectionSlot, MessageExt, MessageOrigin};

#[test]
fn line_ends_are_taken_off() {
    assert_eq!(strip_line_end("12345\n"), "12345");
    assert_eq!(strip_line_end("12345\r\n"), "12345");
    assert_eq!(strip_line_end("12345\r"), "12345");
    assert_eq!(strip_line_end("12345"), "12345");
    assert_eq!(strip_line_end(""), "");
    assert_eq!(strip_line_end("\n"), "");
    assert_eq!(strip_line_end("\r\n"), "");
}

#[test]
fn only_one_line_end_is_taken_off() {
    assert_eq!(strip_line_end("a\n\n"), "a\n");
    assert_eq!(strip_line_end("a\r\r\n"), "a\r");
    assert_eq!(strip_line_end("a\n\r"), "a\n");
    assert_eq!(strip_line_end("a\r\n\r\n"), "a\r\n");
    assert_eq!(strip_line_end("a\nb\n"), "a\nb");
    assert_eq!(strip_line_end(" +1 234 \n"), " +1 234 ");
    assert_eq!(strip_line_end("pässwörd\r\n"), "pässwörd");
}

#[test]
fn chat_kinds_are_told_apart() {
    assert!(ChatKind::User.is_user());
    assert!(!ChatKind::User.is_group());
    assert!(!ChatKind::User.is_channel());
    assert!(ChatKind::Group.is_group());
    assert!(!ChatKind::Group.is_user());
    assert!(!ChatKind::Group.is_channel());
    assert!(ChatKind::Channel.is_channel());
    assert!(!ChatKind::Channel.is_user());
    assert!(!ChatKind::Channel.is_group());
}

#[test]
fn message_is_of_the_kind_of_its_chat() {
    let in_group = MessageOrigin { chat: ChatKind::Group, sender: Some(ChatKind::User) };
    assert!(in_group.is_group());
    assert!(!in_group.is_user());
    assert!(!in_group.is_channel());
    assert!(in_group.has_sender());
    let in_channel = MessageOrigin { chat: ChatKind::Channel, sender: None };
    assert!(in_channel.is_channel());
    assert!(!in_channel.has_sender());
    let private = MessageOrigin { chat: ChatKind::User, sender: Some(ChatKind::User) };
    assert!(private.is_user());
    assert!(private.has_sender());
}

#[test]
fn slot_holds_one_connection_at_most() {
    let mut slot: ConnectionSlot<String> = ConnectionSlot::new();
    assert!(!slot.is_live());
    assert_eq!(slot.get(), None);
    assert_eq!(slot.replace("first".to_string()), None);
    assert!(slot.is_live());
    assert_eq!(slot.get(), Some(&"first".to_string()));
    assert_eq!(slot.replace("second".to_string()), Some("first".to_string()));
    assert_eq!(slot.get(), Some(&"second".to_string()));
    assert_eq!(slot.set_client(None), Some("second".to_string()));
    assert!(!slot.is_live());
    assert_eq!(slot.set_client(None), None);
    assert_eq!(slot.set_client(Some("third".to_string())), None);
    assert_eq!(slot.current, Some("third".to_string()));
}
