//! The direct route: a prompt in, the generated text out.

use vstd::prelude::*;
use vstd::pervasive::unreached;
use crate::models::chat::ChatRequest;
use crate::pipeline::{
    after_completion, completion_text, normalized, Inbound, InboundView, Orchestrator, Step,
    StepView, Wiring,
};
use crate::reply::HttpReply;
use crate::services::chat_api::{ChatApi, CompletionError};

verus! {

/// Answers a direct request. A blank prompt is turned away. Any other
/// prompt is handed to the provider as it came, and the answer is drawn
/// from what the provider returned: its text, unchanged, or one fixed
/// message for every failure.
pub fn chat_endpoint<C: ChatApi>(payload: ChatRequest, chat_api: &C) -> (reply: HttpReply)
    ensures
        match normalized(InboundView::DirectAsk(payload@)) {
            Err(failure) => reply@ == failure.spec_reply(),
            Ok(request) => exists|outcome: Result<String, CompletionError>|
                #[trigger] chat_api.answers(request.prompt, outcome) && after_completion(
                    Wiring::ReplyInline,
                    request.destination,
                    completion_text(outcome),
                ) == StepView::Respond(reply@),
        },
{
    let orchestrator = Orchestrator { expected_token: None, wiring: Wiring::ReplyInline };
    match orchestrator.begin(None, Inbound::DirectAsk(payload)) {
        Step::Respond(reply) => reply,
        Step::Complete { prompt, destination } => {
            let outcome = chat_api.call_chat_api(prompt.as_str());
            match orchestrator.completed(destination, outcome) {
                Step::Respond(reply) => reply,
                _ => {
                    assert(false);
                    unreached()
                },
            }
        },
        Step::Deliver { .. } => {
            assert(false);
            unreached()
        },
    }
}

} // verus!
