//! What handlers most often ask of a chat or of a message: which kind of chat
//! it is, and whether the message names its sender.

use vstd::prelude::*;

verus! {

/// The kind of a chat.
#[derive(Clone, Copy, Debug, PartialEq, Eq, Structural)]
pub enum ChatKind {
    User,
    Group,
    Channel,
}

/// Where a message was posted and by whom, as far as it says.
#[derive(Clone, Copy, Debug, PartialEq, Eq, Structural)]
pub struct MessageOrigin {
    /// The chat that the message was posted in.
    pub chat: ChatKind,
    /// The chat of its sender, where the message names one.
    pub sender: Option<ChatKind>,
}

/// Tells the kinds of chat apart.
pub trait ChatExt {
    /// The kind of the chat in question.
    spec fn kind(&self) -> ChatKind;

    fn is_user(&self) -> (yes: bool)
        ensures
            yes == (self.kind() == ChatKind::User),
    ;

    fn is_group(&self) -> (yes: bool)
        ensures
            yes == (self.kind() == ChatKind::Group),
    ;

    fn is_channel(&self) -> (yes: bool)
        ensures
            yes == (self.kind() == ChatKind::Channel),
    ;
}

impl ChatExt for ChatKind {
    open spec fn kind(&self) -> ChatKind {
        *self
    }

    fn is_user(&self) -> (yes: bool) {
        match self {
            ChatKind::User => true,
            _ => false,
        }
    }

    fn is_group(&self) -> (yes: bool) {
        match self {
            ChatKind::Group => true,
            _ => false,
        }
    }

    fn is_channel(&self) -> (yes: bool) {
        match self {
            ChatKind::Channel => true,
            _ => false,
        }
    }
}

/// A message is of the kind of the chat that it was posted in.
impl ChatExt for MessageOrigin {
    open spec fn kind(&self) -> ChatKind {
        self.chat
    }

    fn is_user(&self) -> (yes: bool) {
        self.chat.is_user()
    }

    fn is_group(&self) -> (yes: bool) {
        self.chat.is_group()
    }

    fn is_channel(&self) -> (yes: bool) {
        self.chat.is_channel()
    }
}

/// Tells whether a message names its sender.
pub trait MessageExt {
    /// The sender in question, where there is one.
    spec fn sender_kind(&self) -> Option<ChatKind>;

    fn has_sender(&self) -> (yes: bool)
        ensures
            yes == self.sender_kind() is Some,
    ;
}

impl MessageExt for MessageOrigin {
    open spec fn sender_kind(&self) -> Option<ChatKind> {
        self.sender
    }

    fn has_sender(&self) -> (yes: bool) {
        self.sender.is_some()
    }
}

/// A chat is of exactly one kind.
pub proof fn lemma_one_kind<C: ChatExt>(chat: &C)
    ensures
        (chat.kind() == ChatKind::User) || (chat.kind() == ChatKind::Group) || (chat.kind()
            == ChatKind::Channel),
        !(chat.kind() == ChatKind::User && chat.kind() == ChatKind::Group),
        !(chat.kind() == ChatKind::User && chat.kind() == ChatKind::Channel),
        !(chat.kind() == ChatKind::Group && chat.kind() == ChatKind::Channel),
{
}

} // verus!
