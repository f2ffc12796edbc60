//! What holds of the pipeline as a whole, for every request.

use vstd::prelude::*;
use crate::json::JsonValue;
use crate::middleware::auth::AuthError;
use crate::models::telegram::UpdateView;
use crate::pipeline::{
    after_completion, after_delivery, begin, gate, run, InboundView, Run, StepView,
    ValidationError, Wiring,
};
use crate::reply::{internal_server_error, ok, BAD_REQUEST, INTERNAL_SERVER_ERROR};
use crate::services::chat_api::CompletionError;
use crate::services::chat_api_impl::{completion_of, content_of};
use crate::text::blank;

verus! {

/// A direct request that is admitted, with a prompt that is not blank, has
/// that prompt sent to the provider as it came; and where the provider's
/// document holds the string `text` at `choices[0].message.content`, the
/// answer is 200 with `text` as its body.
pub proof fn lemma_direct_ask_returns_generated_text(
    expected: Option<Seq<char>>,
    credentials: Option<Seq<char>>,
    wiring: Wiring,
    prompt: Seq<char>,
    document: JsonValue,
    text: Seq<char>,
    delivered: bool,
)
    requires
        gate(expected, credentials) is Ok,
        !blank(prompt),
        content_of(document) == Some(text),
    ensures
        begin(expected, credentials, InboundView::DirectAsk(prompt)) == (StepView::Complete {
            prompt,
            destination: None,
        }),
        completion_of(Some(document)) == Ok::<Seq<char>, CompletionError>(text),
        after_completion(wiring, None, Some(text)) == StepView::Respond(ok(text)),
        run(
            expected,
            credentials,
            InboundView::DirectAsk(prompt),
            wiring,
            Some(text),
            delivered,
        ) == (Run { reply: ok(text), completions: 1, deliveries: 0 }),
{
}

/// A direct request with a blank prompt is answered 400, whatever its
/// credentials, and no outbound call is made; where it is admitted, the
/// answer says that the prompt is empty.
pub proof fn lemma_blank_prompt_is_turned_away(
    expected: Option<Seq<char>>,
    credentials: Option<Seq<char>>,
    wiring: Wiring,
    prompt: Seq<char>,
    completion: Option<Seq<char>>,
    delivered: bool,
)
    requires
        blank(prompt),
    ensures
        ({
            let first = begin(expected, credentials, InboundView::DirectAsk(prompt));
            let whole = run(
                expected,
                credentials,
                InboundView::DirectAsk(prompt),
                wiring,
                completion,
                delivered,
            );
            &&& first matches StepView::Respond(reply) && reply.status == BAD_REQUEST
            &&& gate(expected, credentials) is Ok ==> first == StepView::Respond(
                ValidationError::EmptyPrompt.spec_reply(),
            )
            &&& whole.reply.status == BAD_REQUEST
            &&& whole.completions == 0
            &&& whole.deliveries == 0
        }),
{
}

/// Whether an update holds no text to ask: it has no message, its message
/// has no text, or the text is blank.
pub open spec fn lacks_text(update: UpdateView) -> bool {
    match update.message {
        None => true,
        Some(message) => match message.text {
            None => true,
            Some(text) => blank(text),
        },
    }
}

/// An update that holds no text to ask is answered 400, whatever its
/// credentials, and no outbound call is made; where it is admitted, the
/// answer's body is "No Message Text".
pub proof fn lemma_update_without_text_is_turned_away(
    expected: Option<Seq<char>>,
    credentials: Option<Seq<char>>,
    wiring: Wiring,
    update: UpdateView,
    completion: Option<Seq<char>>,
    delivered: bool,
)
    requires
        lacks_text(update),
    ensures
        ({
            let first = begin(expected, credentials, InboundView::PlatformWebhook(update));
            let whole = run(
                expected,
                credentials,
                InboundView::PlatformWebhook(update),
                wiring,
                completion,
                delivered,
            );
            &&& first matches StepView::Respond(reply) && reply.status == BAD_REQUEST
            &&& gate(expected, credentials) is Ok ==> first == StepView::Respond(
                ValidationError::NoMessageText.spec_reply(),
            )
            &&& ValidationError::NoMessageText.spec_reply().body == "No Message Text"@
            &&& whole.reply.status == BAD_REQUEST
            &&& whole.completions == 0
            &&& whole.deliveries == 0
        }),
{
}

/// On a gated route a request without a token, or with a token that is not
/// the expected one, is answered with the refusal, whose status is 400: the
/// body is never looked at and no outbound call is made.
pub proof fn lemma_refusal_comes_before_the_pipeline(
    token: Seq<char>,
    credentials: Option<Seq<char>>,
    inbound: InboundView,
    wiring: Wiring,
    completion: Option<Seq<char>>,
    delivered: bool,
)
    requires
        credentials != Some(token),
    ensures
        ({
            let refusal = if credentials is None {
                AuthError::AuthMissing
            } else {
                AuthError::AuthInvalid
            };
            let whole = run(Some(token), credentials, inbound, wiring, completion, delivered);
            &&& gate(Some(token), credentials) == Err::<(), AuthError>(refusal)
            &&& begin(Some(token), credentials, inbound) == StepView::Respond(refusal.spec_reply())
            &&& refusal.spec_reply().status == BAD_REQUEST
            &&& whole.reply == refusal.spec_reply()
            &&& whole.completions == 0
            &&& whole.deliveries == 0
        }),
{
}

/// Where the completion call fails, the answer is 500 and the delivery
/// client is not asked, on either route and with either wiring.
pub proof fn lemma_failed_completion_ends_the_pipeline(
    expected: Option<Seq<char>>,
    credentials: Option<Seq<char>>,
    inbound: InboundView,
    wiring: Wiring,
    destination: Option<i64>,
    delivered: bool,
)
    ensures
        ({
            let whole = run(expected, credentials, inbound, wiring, None, delivered);
            &&& after_completion(wiring, destination, None) == StepView::Respond(
                internal_server_error("Error calling chat API"@),
            )
            &&& whole.deliveries == 0
            &&& whole.completions == 1 ==> whole.reply == internal_server_error(
                "Error calling chat API"@,
            )
        }),
{
}

/// Where the completion call gives a text and the delivery call fails, the
/// answer is 500, with a body that sets it apart from a failed completion;
/// the text is dropped.
pub proof fn lemma_failed_delivery_is_a_server_error(
    expected: Option<Seq<char>>,
    credentials: Option<Seq<char>>,
    inbound: InboundView,
    wiring: Wiring,
    text: Seq<char>,
)
    ensures
        ({
            let whole = run(expected, credentials, inbound, wiring, Some(text), false);
            &&& after_delivery(false) == internal_server_error(
                "Failed to send message to Telegram"@,
            )
            &&& after_delivery(false).status == INTERNAL_SERVER_ERROR
            &&& after_delivery(false) != internal_server_error("Error calling chat API"@)
            &&& whole.deliveries == 1 ==> whole.reply == after_delivery(false)
        }),
{
    reveal_strlit("Failed to send message to Telegram");
    reveal_strlit("Error calling chat API");
    assert("Failed to send message to Telegram"@.len() != "Error calling chat API"@.len());
}

/// An update that is admitted, with a text that is not blank: the text goes
/// to the provider as it came. With a delivery client wired, what the
/// provider generated goes to the update's chat and a delivered message is
/// acknowledged with 200; with none, the generated text is the answer.
pub proof fn lemma_update_is_answered_in_its_chat(
    expected: Option<Seq<char>>,
    credentials: Option<Seq<char>>,
    update: UpdateView,
    generated: Seq<char>,
)
    requires
        gate(expected, credentials) is Ok,
        !lacks_text(update),
    ensures
        ({
            let inbound = InboundView::PlatformWebhook(update);
            let chat_id = update.message->0.chat_id;
            &&& begin(expected, credentials, inbound) == (StepView::Complete {
                prompt: update.message->0.text->0,
                destination: Some(chat_id),
            })
            &&& after_completion(Wiring::Deliver, Some(chat_id), Some(generated)) == (
            StepView::Deliver { chat_id, text: generated })
            &&& run(expected, credentials, inbound, Wiring::Deliver, Some(generated), true)
                == (Run { reply: ok("Message sent"@), completions: 1, deliveries: 1 })
            &&& run(expected, credentials, inbound, Wiring::ReplyInline, Some(generated), true)
                == (Run { reply: ok(generated), completions: 1, deliveries: 0 })
        }),
{
}

/// Each collaborator is asked once at most, and the delivery client only
/// after the completion provider: nothing is tried again.
pub proof fn lemma_one_attempt_at_most(
    expected: Option<Seq<char>>,
    credentials: Option<Seq<char>>,
    inbound: InboundView,
    wiring: Wiring,
    completion: Option<Seq<char>>,
    delivered: bool,
)
    ensures
        ({
            let whole = run(expected, credentials, inbound, wiring, completion, delivered);
            &&& whole.deliveries <= whole.completions <= 1
            &&& whole.deliveries == 1 ==> wiring == Wiring::Deliver && inbound is PlatformWebhook
                && completion is Some
        }),
{
}

} // verus!
