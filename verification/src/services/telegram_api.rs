//! The messaging platform's send-API as the pipeline sees it.

use vstd::prelude::*;
use vstd::string::StringExecFns;
use crate::text::{decimal, push_decimal};

verus! {

/// The reason phrase that `StatusCode::canonical_reason` gives for the status
/// code `code`, or `None` where it gives none or `code` is no status code.
pub uninterp spec fn reason_phrase(code: u16) -> Option<Seq<char>>;

/// `reqwest::StatusCode::canonical_reason` (the type is the `http` crate's),
/// called on the status code that `StatusCode::from_u16` makes of `code`.
/// The phrase is looked up by the number alone. `from_u16` refuses a number
/// under 100 or over 999, and the lookup knows no phrase for a code that has
/// no standard one: both give `None`.
#[verifier::external_body]
fn canonical_reason(code: u16) -> (reason: Option<&'static str>)
    ensures
        match reason {
            Some(phrase) => reason_phrase(code) == Some(phrase@),
            None => reason_phrase(code) is None,
        },
{
    reqwest::StatusCode::from_u16(code).ok().and_then(|status| status.canonical_reason())
}

/// A status as it is written out: the number, a space, and the reason
/// phrase or a placeholder for it.
pub open spec fn status_line(code: u16) -> Seq<char> {
    decimal(code as nat) + " "@ + match reason_phrase(code) {
        Some(phrase) => phrase,
        None => "<unknown status code>"@,
    }
}

/// Why a message was not delivered.
#[derive(Debug, Clone, PartialEq, Eq)]
pub enum DeliveryError {
    /// The platform answered with a status outside 200 to 299; the body is
    /// the platform's, as it came.
    PlatformApiError { status: u16, body: String },
    /// The request did not reach the platform, or no answer came back.
    TransportError(String),
}

impl DeliveryError {
    /// The error in words, for the log: the platform's status and body, or
    /// the transport's own account.
    pub open spec fn spec_message(self) -> Seq<char> {
        match self {
            DeliveryError::PlatformApiError { status, body } => "Telegram API error "@
                + status_line(status) + ": "@ + body@,
            DeliveryError::TransportError(detail) => "HTTP error: "@ + detail@,
        }
    }

    /// The error in words.
    pub fn message(&self) -> (message: String)
        ensures
            message@ == self.spec_message(),
    {
        match self {
            DeliveryError::PlatformApiError { status, body } => {
                let mut message = String::from_str("Telegram API error ");
                push_decimal(&mut message, *status);
                message.append(" ");
                match canonical_reason(*status) {
                    Some(phrase) => message.append(phrase),
                    None => message.append("<unknown status code>"),
                }
                message.append(": ");
                message.append(body.as_str());
                message
            },
            DeliveryError::TransportError(detail) => {
                let mut message = String::from_str("HTTP error: ");
                message.append(detail.as_str());
                message
            },
        }
    }
}

/// A service that delivers a text to a chat.
pub trait TelegramApi {
    /// Whether `outcome` is an answer that this sender may give to a request
    /// to deliver `text` to `chat_id`.
    open spec fn delivers(
        &self,
        chat_id: i64,
        text: Seq<char>,
        outcome: Result<(), DeliveryError>,
    ) -> bool {
        true
    }

    /// Sends `text` to the chat `chat_id`.
    fn send_telegram_message(&self, chat_id: i64, text: String) -> (outcome: Result<
        (),
        DeliveryError,
    >)
        ensures
            self.delivers(chat_id, text@, outcome),
    ;
}

} // verus!
