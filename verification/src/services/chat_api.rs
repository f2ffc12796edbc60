//! The completion provider as the pipeline sees it.

use vstd::prelude::*;
use vstd::string::StringExecFns;

verus! {

/// Why a completion call gave no text.
#[derive(Debug, Clone, PartialEq, Eq)]
pub enum CompletionError {
    /// The request did not reach the provider, or no answer came back.
    TransportError(String),
    /// The answer's body is not JSON.
    BadResponseFormat,
    /// The answer holds no text at `choices[0].message.content`.
    MissingContent,
}

impl CompletionError {
    /// The error in words, for the log. A transport's failure is told in
    /// the transport's own words.
    pub open spec fn spec_message(self) -> Seq<char> {
        match self {
            CompletionError::TransportError(detail) => detail@,
            CompletionError::BadResponseFormat => "error decoding response body"@,
            CompletionError::MissingContent => "Missing content in the response!"@,
        }
    }

    /// The error in words.
    pub fn message(&self) -> (message: String)
        ensures
            message@ == self.spec_message(),
    {
        match self {
            CompletionError::TransportError(detail) => String::from_str(detail.as_str()),
            CompletionError::BadResponseFormat => String::from_str(
                "error decoding response body",
            ),
            CompletionError::MissingContent => String::from_str(
                "Missing content in the response!",
            ),
        }
    }
}

/// A service that answers a prompt with generated text.
pub trait ChatApi {
    /// Whether `outcome` is an answer that this provider may give to `prompt`.
    open spec fn answers(
        &self,
        prompt: Seq<char>,
        outcome: Result<String, CompletionError>,
    ) -> bool {
        true
    }

    /// Sends `prompt` to the provider and returns the assistant's text.
    fn call_chat_api(&self, prompt: &str) -> (outcome: Result<String, CompletionError>)
        ensures
            self.answers(prompt@, outcome),
    ;
}

} // verus!
