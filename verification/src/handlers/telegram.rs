//! The webhook route: an update in, the generated text sent to its chat.

use vstd::prelude::*;
use vstd::pervasive::unreached;
use crate::models::telegram::TelegramUpdate;
use crate::pipeline::{
    after_completion, after_delivery, completion_text, normalized, Inbound, InboundView,
    Orchestrator, Step, StepView, Wiring,
};
use crate::reply::{HttpReply, ReplyView};
use crate::services::chat_api::{ChatApi, CompletionError};
use crate::services::telegram_api::{DeliveryError, TelegramApi};

verus! {

/// Whether `reply` ends a pipeline that stands at `step` after the
/// completion call: an answer is given as it is; a text to deliver is handed
/// to the sender as it came, for its chat, and the answer is drawn from
/// what the sender returned.
pub open spec fn ends_after_completion<T: TelegramApi>(
    telegram_api: &T,
    step: StepView,
    reply: ReplyView,
) -> bool {
    match step {
        StepView::Respond(answer) => reply == answer,
        StepView::Deliver { chat_id, text } => exists|sent: Result<(), DeliveryError>|
            #[trigger] telegram_api.delivers(chat_id, text, sent) && reply == after_delivery(
                sent is Ok,
            ),
        StepView::Complete { .. } => false,
    }
}

/// Answers a webhook delivery, with a delivery client wired. An update that
/// holds no text to ask is turned away. Any other has its text handed to
/// the provider as it came; what the provider generated goes to the
/// update's chat, and the answer acknowledges the delivery. A failed
/// completion is answered without a delivery.
pub fn telegram_webhook<C: ChatApi, T: TelegramApi>(
    update: TelegramUpdate,
    chat_api: &C,
    telegram_api: &T,
) -> (reply: HttpReply)
    ensures
        match normalized(InboundView::PlatformWebhook(update@)) {
            Err(failure) => reply@ == failure.spec_reply(),
            Ok(request) => exists|outcome: Result<String, CompletionError>|
                #[trigger] chat_api.answers(request.prompt, outcome) && ends_after_completion(
                    telegram_api,
                    after_completion(
                        Wiring::Deliver,
                        request.destination,
                        completion_text(outcome),
                    ),
                    reply@,
                ),
        },
{
    let orchestrator = Orchestrator { expected_token: None, wiring: Wiring::Deliver };
    match orchestrator.begin(None, Inbound::PlatformWebhook(update)) {
        Step::Respond(reply) => reply,
        Step::Complete { prompt, destination } => {
            let outcome = chat_api.call_chat_api(prompt.as_str());
            let ghost next = after_completion(
                Wiring::Deliver,
                destination,
                completion_text(outcome),
            );
            match orchestrator.completed(destination, outcome) {
                Step::Respond(reply) => reply,
                Step::Deliver { chat_id, text } => {
                    let ghost generated = text@;
                    let sent = telegram_api.send_telegram_message(chat_id, text);
                    let reply = orchestrator.delivered(sent);
                    assert(next->Deliver_chat_id == chat_id);
                    assert(next->Deliver_text == generated);
                    reply
                },
                Step::Complete { .. } => {
                    assert(false);
                    unreached()
                },
            }
        },
        Step::Deliver { .. } => {
            assert(false);
            unreached()
        },
    }
}

/// Answers a webhook delivery, with no delivery client wired: what the
/// provider generated is the answer's body.
pub fn telegram_webhook_inline<C: ChatApi>(update: TelegramUpdate, chat_api: &C) -> (reply:
    HttpReply)
    ensures
        match normalized(InboundView::PlatformWebhook(update@)) {
            Err(failure) => reply@ == failure.spec_reply(),
            Ok(request) => exists|outcome: Result<String, CompletionError>|
                #[trigger] chat_api.answers(request.prompt, outcome) && after_completion(
                    Wiring::ReplyInline,
                    request.destination,
                    completion_text(outcome),
                ) == StepView::Respond(reply@),
        },
{
    let orchestrator = Orchestrator { expected_token: None, wiring: Wiring::ReplyInline };
    match orchestrator.begin(None, Inbound::PlatformWebhook(update)) {
        Step::Respond(reply) => reply,
        Step::Complete { prompt, destination } => {
            let outcome = chat_api.call_chat_api(prompt.as_str());
            match orchestrator.completed(destination, outcome) {
                Step::Respond(reply) => reply,
                _ => {
                    assert(false);
                    unreached()
                },
            }
        },
        Step::Deliver { .. } => {
            assert(false);
            unreached()
        },
    }
}

} // verus!
