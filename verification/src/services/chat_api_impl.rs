//! The completion client: how a prompt becomes a call to an
//! OpenAI-compatible endpoint, and how the answer's body is read.

use vstd::prelude::*;
use vstd::string::StringExecFns;
use crate::config::{require, required, ConfigError, Setting};
use crate::json::{json_parse, Json, JsonValue};
use crate::models::chat::{single_prompt, CompletionRequest, CompletionRequestView};
use crate::services::chat_api::CompletionError;
use crate::text::{
    blank, borrowed_view, join, owned_view, strip_trailing, without_trailing,
};

verus! {

/// One header of an outbound call.
#[derive(Debug, Clone, PartialEq, Eq)]
pub struct Header {
    pub name: String,
    pub value: String,
}

/// What a header is.
pub struct HeaderView {
    pub name: Seq<char>,
    pub value: Seq<char>,
}

impl View for Header {
    type V = HeaderView;

    open spec fn view(&self) -> HeaderView {
        HeaderView { name: self.name@, value: self.value@ }
    }
}

/// A call to the completion provider, ready to be posted: where it goes,
/// the headers it carries besides those of the transport, and its body.
#[derive(Debug, Clone, PartialEq, Eq)]
pub struct CompletionCall {
    pub url: String,
    pub headers: Vec<Header>,
    pub body: CompletionRequest,
}

/// What a completion call is.
pub struct CompletionCallView {
    pub url: Seq<char>,
    pub headers: Seq<HeaderView>,
    pub body: CompletionRequestView,
}

impl View for CompletionCall {
    type V = CompletionCallView;

    open spec fn view(&self) -> CompletionCallView {
        CompletionCallView {
            url: self.url@,
            headers: self.headers@.map_values(|h: Header| h@),
            body: self.body@,
        }
    }
}

/// The settings of the completion client.
pub struct ChatApiView {
    pub base_url: Seq<char>,
    pub model: Seq<char>,
    pub api_key: Option<Seq<char>>,
}

/// The endpoint under `base_url`: the slashes at the base's end are cut
/// before the path is joined on.
pub open spec fn completions_url(base_url: Seq<char>) -> Seq<char> {
    without_trailing(base_url, '/') + "/v1/chat/completions"@
}

/// The headers of a completion call: the content type, and the bearer
/// authorization where an API key is set.
pub open spec fn completion_headers(api_key: Option<Seq<char>>) -> Seq<HeaderView> {
    let content_type = HeaderView { name: "Content-Type"@, value: "application/json"@ };
    match api_key {
        None => seq![content_type],
        Some(key) => seq![
            content_type,
            HeaderView { name: "Authorization"@, value: "Bearer "@ + key },
        ],
    }
}

/// The call that asks the provider behind `api` to answer `prompt`.
pub open spec fn completion_call(api: ChatApiView, prompt: Seq<char>) -> CompletionCallView {
    CompletionCallView {
        url: completions_url(api.base_url),
        headers: completion_headers(api.api_key),
        body: single_prompt(api.model, prompt),
    }
}

/// The text at `choices[0].message.content` of a document, where that path
/// leads to a string.
pub open spec fn content_of(document: JsonValue) -> Option<Seq<char>> {
    match document.member("choices"@) {
        None => None,
        Some(choices) => match choices.element(0) {
            None => None,
            Some(first) => match first.member("message"@) {
                None => None,
                Some(message) => match message.member("content"@) {
                    None => None,
                    Some(content) => content.text(),
                },
            },
        },
    }
}

/// What a parsed body gives: the assistant's text, or the reason why there
/// is none.
pub open spec fn completion_of(parsed: Option<JsonValue>) -> Result<Seq<char>, CompletionError> {
    match parsed {
        None => Err(CompletionError::BadResponseFormat),
        Some(document) => match content_of(document) {
            Some(text) => Ok(text),
            None => Err(CompletionError::MissingContent),
        },
    }
}

/// The view of a reading's result.
pub open spec fn reading_view(reading: Result<String, CompletionError>) -> Result<
    Seq<char>,
    CompletionError,
> {
    match reading {
        Ok(text) => Ok(text@),
        Err(e) => Err(e),
    }
}

/// Draws the assistant's text from a provider's document, unchanged.
pub fn extract_content(document: &Json) -> (reading: Result<String, CompletionError>)
    ensures
        reading_view(reading) == completion_of(Some(document@)),
{
    let content = match document.get("choices") {
        None => None,
        Some(choices) => match choices.at(0) {
            None => None,
            Some(first) => match first.get("message") {
                None => None,
                Some(message) => match message.get("content") {
                    None => None,
                    Some(content) => content.as_str(),
                },
            },
        },
    };
    match content {
        Some(text) => Ok(String::from_str(text)),
        None => Err(CompletionError::MissingContent),
    }
}

/// Reads the body of a provider's answer.
pub fn read_completion(body: &[u8]) -> (reading: Result<String, CompletionError>)
    ensures
        reading_view(reading) == completion_of(json_parse(body@)),
{
    match Json::parse(body) {
        None => Err(CompletionError::BadResponseFormat),
        Some(document) => extract_content(&document),
    }
}

/// What a completion call gave, from what the transport brought back: the
/// answer's body, whatever its status, or the transport's account of why
/// there is none.
pub open spec fn completion_after(answer: Result<Vec<u8>, String>) -> Result<
    Seq<char>,
    CompletionError,
> {
    match answer {
        Err(detail) => Err(CompletionError::TransportError(detail)),
        Ok(body) => completion_of(json_parse(body@)),
    }
}

/// Reads what the transport brought back from a completion call.
pub fn completion_outcome(answer: Result<Vec<u8>, String>) -> (reading: Result<
    String,
    CompletionError,
>)
    ensures
        reading_view(reading) == completion_after(answer),
{
    match answer {
        Err(detail) => Err(CompletionError::TransportError(detail)),
        Ok(body) => read_completion(body.as_slice()),
    }
}

/// The completion client's settings: where the provider is, which model is
/// asked for, and the key to present, if there is one.
#[derive(Debug, PartialEq, Eq)]
pub struct RealChatApi {
    base_url: String,
    model: String,
    api_key: Option<String>,
}

impl View for RealChatApi {
    type V = ChatApiView;

    closed spec fn view(&self) -> ChatApiView {
        ChatApiView {
            base_url: self.base_url@,
            model: self.model@,
            api_key: owned_view(self.api_key),
        }
    }
}

/// The rule for the client's settings: the base URL is checked first, then
/// the model; the key is optional and taken as it is.
pub open spec fn chat_api_settings(
    base_url: Option<Seq<char>>,
    model: Option<Seq<char>>,
    api_key: Option<Seq<char>>,
) -> Result<ChatApiView, ConfigError> {
    match required(Setting::OpenAiUrl, base_url) {
        Err(e) => Err(e),
        Ok(url) => match required(Setting::OpenAiModel, model) {
            Err(e) => Err(e),
            Ok(name) => Ok(ChatApiView { base_url: url, model: name, api_key }),
        },
    }
}

impl RealChatApi {
    /// A client never holds a blank base URL or a blank model.
    #[verifier::type_invariant]
    spec fn well_formed(self) -> bool {
        !blank(self.base_url@) && !blank(self.model@)
    }

    /// Builds the client from the values of its three settings, each as the
    /// environment gave it or `None` where it is not set.
    pub fn new_from_env(
        base_url: Option<String>,
        model: Option<String>,
        api_key: Option<String>,
    ) -> (built: Result<RealChatApi, ConfigError>)
        ensures
            match built {
                Ok(api) => chat_api_settings(
                    owned_view(base_url),
                    owned_view(model),
                    owned_view(api_key),
                ) == Ok::<ChatApiView, ConfigError>(api@),
                Err(e) => chat_api_settings(
                    owned_view(base_url),
                    owned_view(model),
                    owned_view(api_key),
                ) == Err::<ChatApiView, ConfigError>(e),
            },
    {
        let base_url = match require(Setting::OpenAiUrl, base_url) {
            Ok(value) => value,
            Err(e) => { return Err(e); },
        };
        let model = match require(Setting::OpenAiModel, model) {
            Ok(value) => value,
            Err(e) => { return Err(e); },
        };
        Ok(RealChatApi { base_url, model, api_key })
    }

    /// The provider's base URL, never blank.
    pub fn base_url(&self) -> (base_url: &str)
        ensures
            base_url@ == self@.base_url,
            !blank(base_url@),
    {
        proof {
            use_type_invariant(self);
        }
        self.base_url.as_str()
    }

    /// The model asked for, never blank.
    pub fn model(&self) -> (model: &str)
        ensures
            model@ == self@.model,
            !blank(model@),
    {
        proof {
            use_type_invariant(self);
        }
        self.model.as_str()
    }

    /// The key presented to the provider, if one is set.
    pub fn api_key(&self) -> (api_key: Option<&str>)
        ensures
            borrowed_view(api_key) == self@.api_key,
    {
        match &self.api_key {
            Some(key) => Some(key.as_str()),
            None => None,
        }
    }

    /// The endpoint that the client posts to.
    pub fn endpoint(&self) -> (url: String)
        ensures
            url@ == completions_url(self@.base_url),
    {
        join(strip_trailing(self.base_url.as_str(), '/'), "/v1/chat/completions")
    }

    /// Builds the call that asks the provider to answer `prompt`.
    pub fn request(&self, prompt: &str) -> (call: CompletionCall)
        ensures
            call@ == completion_call(self@, prompt@),
    {
        let mut headers: Vec<Header> = Vec::new();
        headers.push(
            Header { name: "Content-Type".to_owned(), value: "application/json".to_owned() },
        );
        match &self.api_key {
            Some(key) => {
                headers.push(
                    Header {
                        name: "Authorization".to_owned(),
                        value: join("Bearer ", key.as_str()),
                    },
                );
            },
            None => {},
        }
        let call = CompletionCall {
            url: self.endpoint(),
            headers,
            body: CompletionRequest::new(self.model.as_str(), prompt),
        };
        assert(call@.headers =~= completion_headers(self@.api_key));
        call
    }
}

} // verus!
