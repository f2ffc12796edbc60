//! The delivery client's two halves: the call that carries a text to a
//! chat, and the reading of the platform's answer.

use vstd::prelude::*;
use vstd::string::StringExecFns;
use crate::models::telegram::{SendMessageRequest, SendMessageView};
use crate::services::telegram_api::DeliveryError;

verus! {

/// A call to the platform's send-API, ready to be posted as JSON.
#[derive(Debug, Clone, PartialEq, Eq)]
pub struct DeliveryCall {
    pub url: String,
    pub body: SendMessageRequest,
}

/// What a delivery call is.
pub struct DeliveryCallView {
    pub url: Seq<char>,
    pub body: SendMessageView,
}

impl View for DeliveryCall {
    type V = DeliveryCallView;

    open spec fn view(&self) -> DeliveryCallView {
        DeliveryCallView { url: self.url@, body: self.body@ }
    }
}

/// The send-message endpoint of the bot `token` under `base_url`. Both are
/// joined as they are.
pub open spec fn send_message_url(base_url: Seq<char>, token: Seq<char>) -> Seq<char> {
    base_url + "/bot"@ + token + "/sendMessage"@
}

/// The call that delivers `text` to the chat `chat_id`.
pub open spec fn delivery_call(
    base_url: Seq<char>,
    token: Seq<char>,
    chat_id: i64,
    text: Seq<char>,
) -> DeliveryCallView {
    DeliveryCallView {
        url: send_message_url(base_url, token),
        body: SendMessageView { chat_id, text },
    }
}

/// Builds the call that delivers `text` to the chat `chat_id`.
pub fn send_message_call(base_url: &str, token: &str, chat_id: i64, text: String) -> (call:
    DeliveryCall)
    ensures
        call@ == delivery_call(base_url@, token@, chat_id, text@),
{
    let mut url = String::from_str(base_url);
    url.append("/bot");
    url.append(token);
    url.append("/sendMessage");
    DeliveryCall { url, body: SendMessageRequest { chat_id, text } }
}

/// Whether a status reports success: 200 to 299.
pub open spec fn success(status: u16) -> bool {
    200 <= status <= 299
}

/// Whether a status reports success.
pub fn is_success(status: u16) -> (yes: bool)
    ensures
        yes == success(status),
{
    200 <= status && status <= 299
}

/// What the platform's answer means: delivered on success, and on any other
/// status an error that keeps the status and the body as they came.
pub open spec fn delivery_of(status: u16, body: String) -> Result<(), DeliveryError> {
    if success(status) {
        Ok(())
    } else {
        Err(DeliveryError::PlatformApiError { status, body })
    }
}

/// Reads the platform's answer to a delivery call.
pub fn delivery_outcome(status: u16, body: String) -> (outcome: Result<(), DeliveryError>)
    ensures
        outcome == delivery_of(status, body),
{
    if is_success(status) {
        Ok(())
    } else {
        Err(DeliveryError::PlatformApiError { status, body })
    }
}

/// What a delivery call gave, from what the transport brought back: the
/// answer's status and body, or the transport's account of why there is
/// none.
pub open spec fn delivery_after(answer: Result<(u16, String), String>) -> Result<
    (),
    DeliveryError,
> {
    match answer {
        Err(detail) => Err(DeliveryError::TransportError(detail)),
        Ok(response) => delivery_of(response.0, response.1),
    }
}

/// Reads what the transport brought back from a delivery call.
pub fn delivery_result(answer: Result<(u16, String), String>) -> (outcome: Result<
    (),
    DeliveryError,
>)
    ensures
        outcome == delivery_after(answer),
{
    match answer {
        Err(detail) => Err(DeliveryError::TransportError(detail)),
        Ok(response) => delivery_outcome(response.0, response.1),
    }
}

} // verus!
