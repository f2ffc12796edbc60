//! The messaging platform's update envelope and the message sent back.

use vstd::prelude::*;

verus! {

/// The chat that a message belongs to.
#[derive(Debug, Clone, Copy, PartialEq, Eq)]
pub struct TelegramChat {
    pub id: i64,
}

/// One message of a chat. A message without text (a photo, a sticker) has
/// `text` empty.
#[derive(Debug, Clone, PartialEq, Eq)]
pub struct TelegramMessage {
    pub message_id: i64,
    pub chat: TelegramChat,
    pub text: Option<String>,
}

/// One webhook delivery of the platform.
#[derive(Debug, Clone, PartialEq, Eq)]
pub struct TelegramUpdate {
    pub update_id: Option<i64>,
    pub message: Option<TelegramMessage>,
}

/// The body of a send-message call: the text and the chat it goes to.
#[derive(Debug, Clone, PartialEq, Eq)]
pub struct SendMessageRequest {
    pub chat_id: i64,
    pub text: String,
}

/// What a message is, with its text as characters.
pub struct MessageView {
    pub message_id: i64,
    pub chat_id: i64,
    pub text: Option<Seq<char>>,
}

/// What an update is.
pub struct UpdateView {
    pub update_id: Option<i64>,
    pub message: Option<MessageView>,
}

/// What a send-message body is.
pub struct SendMessageView {
    pub chat_id: i64,
    pub text: Seq<char>,
}

impl View for TelegramMessage {
    type V = MessageView;

    open spec fn view(&self) -> MessageView {
        MessageView {
            message_id: self.message_id,
            chat_id: self.chat.id,
            text: match self.text {
                Some(t) => Some(t@),
                None => None,
            },
        }
    }
}

impl View for TelegramUpdate {
    type V = UpdateView;

    open spec fn view(&self) -> UpdateView {
        UpdateView {
            update_id: self.update_id,
            message: match self.message {
                Some(m) => Some(m@),
                None => None,
            },
        }
    }
}

impl View for SendMessageRequest {
    type V = SendMessageView;

    open spec fn view(&self) -> SendMessageView {
        SendMessageView { chat_id: self.chat_id, text: self.text@ }
    }
}

} // verus!
