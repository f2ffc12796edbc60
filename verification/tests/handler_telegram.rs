//! The webhook route, with stand-ins for both collaborators.

use std::cell::{Cell, RefCell};

use tg_ai_companion::handlers::telegram::{telegram_webhook, telegram_webhook_inline};
use tg_ai_companion::models::telegram::{TelegramChat, TelegramMessage, TelegramUpdate};
use tg_ai_companion::services::chat_api::{ChatApi, CompletionError};
use tg_ai_companion::services::telegram_api::{DeliveryError, TelegramApi};

/// A provider that echoes the prompt, prefixed with "Echo: ".
struct EchoChatApi {
    calls: Cell<usize>,
}

impl ChatApi for EchoChatApi {
    fn call_chat_api(&self, prompt: &str) -> Result<String, CompletionError> {
        self.calls.set(self.calls.get() + 1);
        Ok(format!("Echo: {}", prompt))
    }
}

/// A provider whose every call fails.
struct FailingChatApi;

impl ChatApi for FailingChatApi {
    fn call_chat_api(&self, _prompt: &str) -> Result<String, CompletionError> {
        Err(CompletionError::MissingContent)
    }
}

/// A sender that records what it is asked to send and gives one fixed
/// outcome.
struct RecordingTelegramApi {
    outcome: Result<(), DeliveryError>,
    sent: RefCell<Vec<(i64, String)>>,
}

impl RecordingTelegramApi {
    fn returning(outcome: Result<(), DeliveryError>) -> Self {
        RecordingTelegramApi { outcome, sent: RefCell::new(Vec::new()) }
    }
}

impl TelegramApi for RecordingTelegramApi {
    fn send_telegram_message(&self, chat_id: i64, text: String) -> Result<(), DeliveryError> {
        self.sent.borrow_mut().push((chat_id, text));
        self.outcome.clone()
    }
}

fn echo() -> EchoChatApi {
    EchoChatApi { calls: Cell::new(0) }
}

fn update_with(text: Option<&str>) -> TelegramUpdate {
    TelegramUpdate {
        update_id: Some(123456789),
        message: Some(TelegramMessage {
            message_id: 1,
            chat: TelegramChat { id: 987654321 },
            text: text.map(|t| t.to_string()),
        }),
    }
}

#[test]
fn webhook_delivers_the_text_and_acknowledges() {
    let chat_api = echo();
    let telegram_api = RecordingTelegramApi::returning(Ok(()));

    let resp = telegram_webhook(update_with(Some("Hello bot")), &chat_api, &telegram_api);

    assert_eq!(resp.status, 200);
    assert_eq!(resp.body, "Message sent");
    assert_eq!(chat_api.calls.get(), 1);
    assert_eq!(
        *telegram_api.sent.borrow(),
        vec![(987654321, "Echo: Hello bot".to_string())]
    );
}

#[test]
fn webhook_reports_a_refused_delivery() {
    let chat_api = echo();
    let telegram_api = RecordingTelegramApi::returning(Err(DeliveryError::PlatformApiError {
        status: 400,
        body: r#"{"ok":false,"description":"Bad Request: chat not found"}"#.to_string(),
    }));

    let resp = telegram_webhook(update_with(Some("Hello bot")), &chat_api, &telegram_api);

    assert_eq!(resp.status, 500);
    assert_eq!(resp.body, "Failed to send message to Telegram");
    assert_eq!(telegram_api.sent.borrow().len(), 1);
}

#[test]
fn webhook_reports_an_unreachable_platform() {
    let chat_api = echo();
    let telegram_api = RecordingTelegramApi::returning(Err(DeliveryError::TransportError(
        "error sending request".to_string(),
    )));

    let resp = telegram_webhook(update_with(Some("Hello bot")), &chat_api, &telegram_api);

    assert_eq!(resp.status, 500);
    assert_eq!(resp.body, "Failed to send message to Telegram");
}

#[test]
fn webhook_does_not_deliver_after_a_failed_completion() {
    let telegram_api = RecordingTelegramApi::returning(Ok(()));

    let resp = telegram_webhook(update_with(Some("Hello bot")), &FailingChatApi, &telegram_api);

    assert_eq!(resp.status, 500);
    assert_eq!(resp.body, "Error calling chat API");
    assert_eq!(telegram_api.sent.borrow().len(), 0);
}

#[test]
fn webhook_turns_an_update_without_message_away() {
    let chat_api = echo();
    let telegram_api = RecordingTelegramApi::returning(Ok(()));
    let update = TelegramUpdate { update_id: None, message: None };

    let resp = telegram_webhook(update, &chat_api, &telegram_api);

    assert_eq!(resp.status, 400);
    assert_eq!(resp.body, "No Message Text");
    assert_eq!(chat_api.calls.get(), 0);
    assert_eq!(telegram_api.sent.borrow().len(), 0);
}

#[test]
fn webhook_turns_a_message_without_text_away() {
    for text in [None, Some(""), Some("   "), Some("\n\t")] {
        let chat_api = echo();
        let telegram_api = RecordingTelegramApi::returning(Ok(()));

        let resp = telegram_webhook(update_with(text), &chat_api, &telegram_api);

        assert_eq!(resp.status, 400);
        assert_eq!(resp.body, "No Message Text");
        assert_eq!(chat_api.calls.get(), 0);
        assert_eq!(telegram_api.sent.borrow().len(), 0);
    }
}

#[test]
fn webhook_without_delivery_client_replies_inline() {
    let chat_api = echo();

    let resp = telegram_webhook_inline(update_with(Some("Hello bot")), &chat_api);

    assert_eq!(resp.status, 200);
    assert_eq!(resp.body, "Echo: Hello bot");
    assert_eq!(chat_api.calls.get(), 1);
}

#[test]
fn webhook_without_delivery_client_validates_alike() {
    let chat_api = echo();

    let resp = telegram_webhook_inline(update_with(Some(" ")), &chat_api);

    assert_eq!(resp.status, 400);
    assert_eq!(resp.body, "No Message Text");
    assert_eq!(chat_api.calls.get(), 0);

    let resp = telegram_webhook_inline(update_with(Some("Hi")), &FailingChatApi);
    assert_eq!(resp.status, 500);
    assert_eq!(resp.body, "Error calling chat API");
}

#[test]
fn webhook_keeps_a_negative_chat_id() {
    let chat_api = echo();
    let telegram_api = RecordingTelegramApi::returning(Ok(()));
    let update = TelegramUpdate {
        update_id: Some(1),
        message: Some(TelegramMessage {
            message_id: 7,
            chat: TelegramChat { id: -1001234567890 },
            text: Some("ping".to_string()),
        }),
    };

    let resp = telegram_webhook(update, &chat_api, &telegram_api);

    assert_eq!(resp.status, 200);
    assert_eq!(*telegram_api.sent.borrow(), vec![(-1001234567890, "Echo: ping".to_string())]);
}
