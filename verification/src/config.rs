//! The settings that the clients are built from, and what is wrong with one
//! that cannot be used.

use vstd::prelude::*;
use vstd::string::StringExecFns;
use crate::text::{blank, is_blank, owned_view};

verus! {

/// A setting that the environment provides.
#[derive(Debug, Clone, Copy, PartialEq, Eq, Structural)]
pub enum Setting {
    /// The completion provider's base URL.
    OpenAiUrl,
    /// The model that the provider is asked for.
    OpenAiModel,
    /// The key presented to the completion provider; optional.
    OpenAiApiKey,
    /// The messaging platform's base URL.
    TelegramApiBaseUrl,
    /// The bot's token on the messaging platform.
    TelegramBotToken,
    /// The bearer token that inbound requests must carry.
    ApiToken,
}

/// Why a client could not be built.
#[derive(Debug, Clone, Copy, PartialEq, Eq, Structural)]
pub enum ConfigError {
    /// The setting has no value.
    NotSet(Setting),
    /// The setting's value is blank.
    Empty(Setting),
}

impl Setting {
    /// The environment variable that holds the setting.
    pub open spec fn spec_variable(self) -> Seq<char> {
        match self {
            Setting::OpenAiUrl => "OPEN_AI_URL"@,
            Setting::OpenAiModel => "OPEN_AI_MODEL"@,
            Setting::OpenAiApiKey => "OPEN_AI_API_KEY"@,
            Setting::TelegramApiBaseUrl => "TELEGRAM_API_BASE_URL"@,
            Setting::TelegramBotToken => "TELEGRAM_BOT_TOKEN"@,
            Setting::ApiToken => "API_TOKEN"@,
        }
    }

    /// The environment variable that holds the setting.
    pub fn variable(&self) -> (name: &'static str)
        ensures
            name@ == self.spec_variable(),
    {
        match self {
            Setting::OpenAiUrl => "OPEN_AI_URL",
            Setting::OpenAiModel => "OPEN_AI_MODEL",
            Setting::OpenAiApiKey => "OPEN_AI_API_KEY",
            Setting::TelegramApiBaseUrl => "TELEGRAM_API_BASE_URL",
            Setting::TelegramBotToken => "TELEGRAM_BOT_TOKEN",
            Setting::ApiToken => "API_TOKEN",
        }
    }
}

impl ConfigError {
    /// The error in words: it names the variable and says what is wrong
    /// with it.
    pub open spec fn spec_message(self) -> Seq<char> {
        match self {
            ConfigError::NotSet(setting) => "Environment variable "@ + setting.spec_variable()
                + " is not set or empty"@,
            ConfigError::Empty(setting) => "Environment variable "@ + setting.spec_variable()
                + " cannot be empty"@,
        }
    }

    /// The error in words.
    pub fn message(&self) -> (message: String)
        ensures
            message@ == self.spec_message(),
    {
        let mut message = String::from_str("Environment variable ");
        match self {
            ConfigError::NotSet(setting) => {
                message.append(setting.variable());
                message.append(" is not set or empty");
            },
            ConfigError::Empty(setting) => {
                message.append(setting.variable());
                message.append(" cannot be empty");
            },
        }
        message
    }
}

/// The rule for a required setting: it must have a value, and the value
/// must not be blank. The value is kept as it came, untrimmed.
pub open spec fn required(setting: Setting, value: Option<Seq<char>>) -> Result<
    Seq<char>,
    ConfigError,
> {
    match value {
        None => Err(ConfigError::NotSet(setting)),
        Some(text) => if blank(text) {
            Err(ConfigError::Empty(setting))
        } else {
            Ok(text)
        },
    }
}

/// Checks a required setting and hands its value on.
pub fn require(setting: Setting, value: Option<String>) -> (checked: Result<String, ConfigError>)
    ensures
        match checked {
            Ok(text) => required(setting, owned_view(value)) == Ok::<Seq<char>, ConfigError>(text@),
            Err(e) => required(setting, owned_view(value)) == Err::<Seq<char>, ConfigError>(e),
        },
{
    match value {
        None => Err(ConfigError::NotSet(setting)),
        Some(text) => if is_blank(text.as_str()) {
            Err(ConfigError::Empty(setting))
        } else {
            Ok(text)
        },
    }
}

} // verus!
