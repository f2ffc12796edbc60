//! The request pipeline: gate, normalizer and the order of the outbound
//! calls. Each transition takes what is known so far and says what happens
//! next: an outbound call, or the answer.

use vstd::prelude::*;
use crate::middleware::auth::{admitted, validator, AuthError};
use crate::models::chat::ChatRequest;
use crate::models::telegram::{TelegramUpdate, UpdateView};
use crate::reply::{bad_request, internal_server_error, ok, HttpReply, ReplyView};
use crate::services::chat_api::CompletionError;
use crate::services::telegram_api::DeliveryError;
use crate::text::{blank, borrowed_view, is_blank, owned_view};

verus! {

/// The body of an inbound request, by the route that received it.
#[derive(Debug, Clone, PartialEq, Eq)]
pub enum Inbound {
    /// A direct request.
    DirectAsk(ChatRequest),
    /// A webhook delivery of the messaging platform.
    PlatformWebhook(TelegramUpdate),
    /// A body that could not be read as the route's shape.
    Malformed,
}

/// What an inbound body is.
pub enum InboundView {
    DirectAsk(Seq<char>),
    PlatformWebhook(UpdateView),
    Malformed,
}

impl View for Inbound {
    type V = InboundView;

    open spec fn view(&self) -> InboundView {
        match self {
            Inbound::DirectAsk(request) => InboundView::DirectAsk(request@),
            Inbound::PlatformWebhook(update) => InboundView::PlatformWebhook(update@),
            Inbound::Malformed => InboundView::Malformed,
        }
    }
}

/// Why a body holds nothing to ask.
#[derive(Debug, Clone, Copy, PartialEq, Eq, Structural)]
pub enum ValidationError {
    /// The body could not be read.
    MalformedBody,
    /// A direct request whose prompt is blank.
    EmptyPrompt,
    /// An update without a message, without text, or with blank text.
    NoMessageText,
}

impl ValidationError {
    /// The body of the answer to a request that holds nothing to ask.
    pub open spec fn spec_message(self) -> Seq<char> {
        match self {
            ValidationError::MalformedBody => "Malformed Body"@,
            ValidationError::EmptyPrompt => "Prompt cannot be empty"@,
            ValidationError::NoMessageText => "No Message Text"@,
        }
    }

    /// The answer to a request that holds nothing to ask.
    pub open spec fn spec_reply(self) -> ReplyView {
        bad_request(self.spec_message())
    }

    /// The failure in words.
    pub fn message(&self) -> (message: &'static str)
        ensures
            message@ == self.spec_message(),
    {
        match self {
            ValidationError::MalformedBody => "Malformed Body",
            ValidationError::EmptyPrompt => "Prompt cannot be empty",
            ValidationError::NoMessageText => "No Message Text",
        }
    }

    /// The answer that the request gets.
    pub fn reply(&self) -> (reply: HttpReply)
        ensures
            reply@ == self.spec_reply(),
    {
        HttpReply::bad_request(self.message())
    }
}

/// What the normalizer draws from a body: the prompt, and the chat that the
/// answer goes to where the body came from the messaging platform.
#[derive(Debug, Clone, PartialEq, Eq)]
pub struct Normalized {
    pub prompt: String,
    pub destination: Option<i64>,
}

/// What a normalized request is.
pub struct NormalizedView {
    pub prompt: Seq<char>,
    pub destination: Option<i64>,
}

impl View for Normalized {
    type V = NormalizedView;

    open spec fn view(&self) -> NormalizedView {
        NormalizedView { prompt: self.prompt@, destination: self.destination }
    }
}

/// The normalizer's rule. A direct request gives its prompt, unless that is
/// blank. An update gives its message's text and chat, unless the message or
/// the text is missing or the text is blank. The prompt is the text as it
/// came, untrimmed.
pub open spec fn normalized(inbound: InboundView) -> Result<NormalizedView, ValidationError> {
    match inbound {
        InboundView::Malformed => Err(ValidationError::MalformedBody),
        InboundView::DirectAsk(prompt) => if blank(prompt) {
            Err(ValidationError::EmptyPrompt)
        } else {
            Ok(NormalizedView { prompt, destination: None })
        },
        InboundView::PlatformWebhook(update) => match update.message {
            None => Err(ValidationError::NoMessageText),
            Some(message) => match message.text {
                None => Err(ValidationError::NoMessageText),
                Some(text) => if blank(text) {
                    Err(ValidationError::NoMessageText)
                } else {
                    Ok(NormalizedView { prompt: text, destination: Some(message.chat_id) })
                },
            },
        },
    }
}

/// The view of a normalizer's result.
pub open spec fn normalized_view(result: Result<Normalized, ValidationError>) -> Result<
    NormalizedView,
    ValidationError,
> {
    match result {
        Ok(n) => Ok(n@),
        Err(e) => Err(e),
    }
}

/// Draws the prompt, and the destination if there is one, from an inbound
/// body.
pub fn normalize(inbound: Inbound) -> (result: Result<Normalized, ValidationError>)
    ensures
        normalized_view(result) == normalized(inbound@),
{
    match inbound {
        Inbound::Malformed => Err(ValidationError::MalformedBody),
        Inbound::DirectAsk(request) => {
            if is_blank(request.prompt.as_str()) {
                Err(ValidationError::EmptyPrompt)
            } else {
                Ok(Normalized { prompt: request.prompt, destination: None })
            }
        },
        Inbound::PlatformWebhook(update) => match update.message {
            None => Err(ValidationError::NoMessageText),
            Some(message) => match message.text {
                None => Err(ValidationError::NoMessageText),
                Some(text) => {
                    if is_blank(text.as_str()) {
                        Err(ValidationError::NoMessageText)
                    } else {
                        Ok(Normalized { prompt: text, destination: Some(message.chat.id) })
                    }
                },
            },
        },
    }
}

/// Whether a delivery client stands behind the webhook route.
#[derive(Debug, Clone, Copy, PartialEq, Eq, Structural)]
pub enum Wiring {
    /// None does: the generated text is the answer's body.
    ReplyInline,
    /// One does: the generated text is sent to the chat, and the answer
    /// acknowledges it.
    Deliver,
}

/// What the pipeline does next.
#[derive(Debug, Clone, PartialEq, Eq)]
pub enum Step {
    /// Ask the completion provider for an answer to `prompt`.
    Complete { prompt: String, destination: Option<i64> },
    /// Send `text` to the chat `chat_id`.
    Deliver { chat_id: i64, text: String },
    /// Answer the request: the pipeline has ended.
    Respond(HttpReply),
}

/// What a step is.
pub enum StepView {
    Complete { prompt: Seq<char>, destination: Option<i64> },
    Deliver { chat_id: i64, text: Seq<char> },
    Respond(ReplyView),
}

impl View for Step {
    type V = StepView;

    open spec fn view(&self) -> StepView {
        match self {
            Step::Complete { prompt, destination } => StepView::Complete {
                prompt: prompt@,
                destination: *destination,
            },
            Step::Deliver { chat_id, text } => StepView::Deliver { chat_id: *chat_id, text: text@ },
            Step::Respond(reply) => StepView::Respond(reply@),
        }
    }
}

/// The credential gate of a route: without an expected token every request
/// passes.
pub open spec fn gate(expected: Option<Seq<char>>, credentials: Option<Seq<char>>) -> Result<
    (),
    AuthError,
> {
    match expected {
        None => Ok(()),
        Some(token) => admitted(credentials, token),
    }
}

/// The first transition: gate, then normalizer. A request that passes both
/// goes on to the completion call with its prompt as it came; any other is
/// answered at once.
pub open spec fn begin(
    expected: Option<Seq<char>>,
    credentials: Option<Seq<char>>,
    inbound: InboundView,
) -> StepView {
    match gate(expected, credentials) {
        Err(refusal) => StepView::Respond(refusal.spec_reply()),
        Ok(()) => match normalized(inbound) {
            Err(failure) => StepView::Respond(failure.spec_reply()),
            Ok(request) => StepView::Complete {
                prompt: request.prompt,
                destination: request.destination,
            },
        },
    }
}

/// The second transition, on the completion call's outcome: `Some` text
/// where it succeeded, `None` where it failed, whatever the cause. A failure
/// is answered at once. The text goes to the destination where there is one
/// and a delivery client is wired, and into the answer otherwise.
pub open spec fn after_completion(
    wiring: Wiring,
    destination: Option<i64>,
    completion: Option<Seq<char>>,
) -> StepView {
    match completion {
        None => StepView::Respond(internal_server_error("Error calling chat API"@)),
        Some(text) => match destination {
            Some(chat_id) if wiring == Wiring::Deliver => StepView::Deliver { chat_id, text },
            _ => StepView::Respond(ok(text)),
        },
    }
}

/// The last transition, on the delivery call's outcome: an acknowledgement
/// where the message was delivered, a failure of its own where it was not.
pub open spec fn after_delivery(delivered: bool) -> ReplyView {
    if delivered {
        ok("Message sent"@)
    } else {
        internal_server_error("Failed to send message to Telegram"@)
    }
}

/// The text that a completion call gave, if it gave one.
pub open spec fn completion_text(outcome: Result<String, CompletionError>) -> Option<Seq<char>> {
    match outcome {
        Ok(text) => Some(text@),
        Err(_) => None,
    }
}

/// The pipeline as it is wired at startup.
#[derive(Debug, Clone, PartialEq, Eq)]
pub struct Orchestrator {
    /// The bearer token that a request must carry; none where the route is
    /// not gated.
    pub expected_token: Option<String>,
    /// Whether generated text is delivered or returned.
    pub wiring: Wiring,
}

impl Orchestrator {
    /// Starts the pipeline for one request.
    pub fn begin(&self, credentials: Option<&str>, inbound: Inbound) -> (step: Step)
        ensures
            step@ == begin(owned_view(self.expected_token), borrowed_view(credentials), inbound@),
            !(step is Deliver),
    {
        let verdict = match &self.expected_token {
            None => Ok(()),
            Some(expected) => validator(credentials, expected.as_str()),
        };
        match verdict {
            Err(refusal) => Step::Respond(refusal.reply()),
            Ok(()) => match normalize(inbound) {
                Err(failure) => Step::Respond(failure.reply()),
                Ok(request) => Step::Complete {
                    prompt: request.prompt,
                    destination: request.destination,
                },
            },
        }
    }

    /// Goes on after the completion call.
    pub fn completed(
        &self,
        destination: Option<i64>,
        outcome: Result<String, CompletionError>,
    ) -> (step: Step)
        ensures
            step@ == after_completion(self.wiring, destination, completion_text(outcome)),
            !(step is Complete),
    {
        match outcome {
            Err(_) => Step::Respond(HttpReply::internal_server_error("Error calling chat API")),
            Ok(text) => match destination {
                Some(chat_id) => match self.wiring {
                    Wiring::Deliver => Step::Deliver { chat_id, text },
                    Wiring::ReplyInline => Step::Respond(HttpReply::ok(text)),
                },
                None => Step::Respond(HttpReply::ok(text)),
            },
        }
    }

    /// Ends the pipeline after the delivery call.
    pub fn delivered(&self, outcome: Result<(), DeliveryError>) -> (reply: HttpReply)
        ensures
            reply@ == after_delivery(outcome is Ok),
    {
        match outcome {
            Ok(()) => HttpReply::ok("Message sent".to_owned()),
            Err(_) => HttpReply::internal_server_error("Failed to send message to Telegram"),
        }
    }
}

/// One request's passage through the pipeline.
pub struct Run {
    /// The answer that the request gets.
    pub reply: ReplyView,
    /// How often the completion provider was asked.
    pub completions: nat,
    /// How often the delivery client was asked.
    pub deliveries: nat,
}

/// The whole pipeline, given what the collaborators would return if they
/// were asked: `completion` is the provider's text, or `None` for a failed
/// call; `delivered` tells whether the delivery call would succeed.
pub open spec fn run(
    expected: Option<Seq<char>>,
    credentials: Option<Seq<char>>,
    inbound: InboundView,
    wiring: Wiring,
    completion: Option<Seq<char>>,
    delivered: bool,
) -> Run {
    match begin(expected, credentials, inbound) {
        StepView::Complete { prompt, destination } => match after_completion(
            wiring,
            destination,
            completion,
        ) {
            StepView::Deliver { chat_id, text } => Run {
                reply: after_delivery(delivered),
                completions: 1,
                deliveries: 1,
            },
            StepView::Respond(reply) => Run { reply, completions: 1, deliveries: 0 },
            StepView::Complete { .. } => arbitrary(),
        },
        StepView::Respond(reply) => Run { reply, completions: 0, deliveries: 0 },
        StepView::Deliver { .. } => arbitrary(),
    }
}

} // verus!
