//! The delivery client's settings.

use vstd::prelude::*;
use crate::config::{require, required, ConfigError, Setting};
use crate::services::telegram::{delivery_call, send_message_call, DeliveryCall};
use crate::text::owned_view;

verus! {

/// The delivery client's settings: where the platform is, and the bot's
/// token.
#[derive(Debug, Clone, PartialEq, Eq)]
pub struct RealTelegramApi {
    pub base_url: String,
    pub token: String,
}

/// What the settings are.
pub struct TelegramApiView {
    pub base_url: Seq<char>,
    pub token: Seq<char>,
}

impl View for RealTelegramApi {
    type V = TelegramApiView;

    open spec fn view(&self) -> TelegramApiView {
        TelegramApiView { base_url: self.base_url@, token: self.token@ }
    }
}

/// The rule for the client's settings: the base URL is checked first, then
/// the token.
pub open spec fn telegram_api_settings(
    base_url: Option<Seq<char>>,
    token: Option<Seq<char>>,
) -> Result<TelegramApiView, ConfigError> {
    match required(Setting::TelegramApiBaseUrl, base_url) {
        Err(e) => Err(e),
        Ok(url) => match required(Setting::TelegramBotToken, token) {
            Err(e) => Err(e),
            Ok(secret) => Ok(TelegramApiView { base_url: url, token: secret }),
        },
    }
}

impl RealTelegramApi {
    /// Builds the client from a base URL and a token, taken as they are.
    pub fn new(base_url: String, token: String) -> (api: RealTelegramApi)
        ensures
            api@ == (TelegramApiView { base_url: base_url@, token: token@ }),
    {
        RealTelegramApi { base_url, token }
    }

    /// Builds the client from the values of its two settings, each as the
    /// environment gave it or `None` where it is not set.
    pub fn new_from_env(base_url: Option<String>, token: Option<String>) -> (built: Result<
        RealTelegramApi,
        ConfigError,
    >)
        ensures
            match built {
                Ok(api) => telegram_api_settings(owned_view(base_url), owned_view(token)) == Ok::<
                    TelegramApiView,
                    ConfigError,
                >(api@),
                Err(e) => telegram_api_settings(owned_view(base_url), owned_view(token)) == Err::<
                    TelegramApiView,
                    ConfigError,
                >(e),
            },
    {
        let base_url = match require(Setting::TelegramApiBaseUrl, base_url) {
            Ok(value) => value,
            Err(e) => { return Err(e); },
        };
        let token = match require(Setting::TelegramBotToken, token) {
            Ok(value) => value,
            Err(e) => { return Err(e); },
        };
        Ok(RealTelegramApi { base_url, token })
    }

    /// Builds the call that delivers `text` to the chat `chat_id`.
    pub fn request(&self, chat_id: i64, text: String) -> (call: DeliveryCall)
        ensures
            call@ == delivery_call(self@.base_url, self@.token, chat_id, text@),
    {
        send_message_call(self.base_url.as_str(), self.token.as_str(), chat_id, text)
    }
}

} // verus!
