//! The body of a direct request, and the body sent to the completion provider.

use vstd::prelude::*;

verus! {

/// A direct request: one prompt for the completion service.
#[derive(Debug, Clone, PartialEq, Eq)]
pub struct ChatRequest {
    pub prompt: String,
}

impl View for ChatRequest {
    type V = Seq<char>;

    /// The prompt's characters.
    open spec fn view(&self) -> Seq<char> {
        self.prompt@
    }
}

/// One message of a conversation: who speaks, and what is said.
#[derive(Debug, Clone, PartialEq, Eq)]
pub struct ChatMessage {
    pub role: String,
    pub content: String,
}

/// The body of a completion call: the model asked for and the conversation
/// so far.
#[derive(Debug, Clone, PartialEq, Eq)]
pub struct CompletionRequest {
    pub model: String,
    pub messages: Vec<ChatMessage>,
}

/// What a message is.
pub struct ChatMessageView {
    pub role: Seq<char>,
    pub content: Seq<char>,
}

/// What a completion body is.
pub struct CompletionRequestView {
    pub model: Seq<char>,
    pub messages: Seq<ChatMessageView>,
}

impl View for ChatMessage {
    type V = ChatMessageView;

    open spec fn view(&self) -> ChatMessageView {
        ChatMessageView { role: self.role@, content: self.content@ }
    }
}

impl View for CompletionRequest {
    type V = CompletionRequestView;

    open spec fn view(&self) -> CompletionRequestView {
        CompletionRequestView {
            model: self.model@,
            messages: self.messages@.map_values(|m: ChatMessage| m@),
        }
    }
}

/// The body that asks `model` to answer `prompt`: one message, in the
/// user's role, with the prompt as it came.
pub open spec fn single_prompt(model: Seq<char>, prompt: Seq<char>) -> CompletionRequestView {
    CompletionRequestView {
        model,
        messages: seq![ChatMessageView { role: "user"@, content: prompt }],
    }
}

impl CompletionRequest {
    /// Builds the body that asks `model` to answer `prompt`.
    pub fn new(model: &str, prompt: &str) -> (request: CompletionRequest)
        ensures
            request@ == single_prompt(model@, prompt@),
    {
        let mut messages: Vec<ChatMessage> = Vec::new();
        messages.push(ChatMessage { role: "user".to_owned(), content: prompt.to_owned() });
        let request = CompletionRequest { model: model.to_owned(), messages };
        assert(request@.messages =~= single_prompt(model@, prompt@).messages);
        request
    }
}

} // verus!
