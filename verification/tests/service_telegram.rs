//! The delivery call and the reading of the platform's answer.

use tg_ai_companion::models::telegram::SendMessageRequest;
use tg_ai_companion::services::telegram::{
    delivery_outcome, delivery_result, is_success, send_message_call,
};
use tg_ai_companion::services::telegram_api::DeliveryError;

#[test]
fn test_send_telegram_message_custom_success() {
    let base_url = "http://127.0.0.1:5000";
    let fake_token = "TEST_TOKEN";
    let chat_id = 123456789;
    let text = "Hello from test!".to_string();

    let call = send_message_call(base_url, fake_token, chat_id, text.clone());
    assert_eq!(call.url, format!("{}/bot{}/sendMessage", base_url, fake_token));
    assert_eq!(call.body, SendMessageRequest { chat_id, text });

    let result = delivery_outcome(200, r#"{"ok":true,"result":{}}"#.to_string());
    assert!(result.is_ok());
}

#[test]
fn test_send_telegram_message_custom_error() {
    let base_url = "http://127.0.0.1:5000";
    let fake_token = "TEST_TOKEN";
    let chat_id = 123456789;
    let text = "Hello error test!".to_string();

    let call = send_message_call(base_url, fake_token, chat_id, text.clone());
    assert_eq!(call.url, format!("{}/bot{}/sendMessage", base_url, fake_token));
    assert_eq!(call.body, SendMessageRequest { chat_id, text });

    let result = delivery_outcome(
        400,
        r#"{"ok":false,"description":"Bad Request: chat not found"}"#.to_string(),
    );
    assert!(result.is_err());

    let err = result.unwrap_err().message();
    assert!(err.contains("Telegram API error 400"));
    assert!(err.contains("Bad Request: chat not found"));
}

#[test]
fn a_platform_error_reads_as_status_line_and_body() {
    let err = DeliveryError::PlatformApiError {
        status: 400,
        body: r#"{"ok":false,"description":"Bad Request: chat not found"}"#.to_string(),
    };
    assert_eq!(
        err.message(),
        r#"Telegram API error 400 Bad Request: {"ok":false,"description":"Bad Request: chat not found"}"#
    );
}

#[test]
fn a_status_line_names_the_standard_reason() {
    let line = |status: u16| {
        DeliveryError::PlatformApiError { status, body: String::new() }.message()
    };
    assert_eq!(line(404), "Telegram API error 404 Not Found: ");
    assert_eq!(line(429), "Telegram API error 429 Too Many Requests: ");
    assert_eq!(line(500), "Telegram API error 500 Internal Server Error: ");
    assert_eq!(line(100), "Telegram API error 100 Continue: ");
}

#[test]
fn a_status_line_without_standard_reason_says_so() {
    let line = |status: u16| {
        DeliveryError::PlatformApiError { status, body: "x".to_string() }.message()
    };
    assert_eq!(line(399), "Telegram API error 399 <unknown status code>: x");
    assert_eq!(line(999), "Telegram API error 999 <unknown status code>: x");
    assert_eq!(line(0), "Telegram API error 0 <unknown status code>: x");
    assert_eq!(line(7), "Telegram API error 7 <unknown status code>: x");
    assert_eq!(line(99), "Telegram API error 99 <unknown status code>: x");
    assert_eq!(line(1000), "Telegram API error 1000 <unknown status code>: x");
    assert_eq!(line(65535), "Telegram API error 65535 <unknown status code>: x");
}

#[test]
fn a_transport_error_reads_as_http_error() {
    let err = DeliveryError::TransportError("error sending request".to_string());
    assert_eq!(err.message(), "HTTP error: error sending request");
}

#[test]
fn success_is_two_hundred_to_two_ninety_nine() {
    assert!(!is_success(0));
    assert!(!is_success(199));
    assert!(is_success(200));
    assert!(is_success(204));
    assert!(is_success(299));
    assert!(!is_success(300));
    assert!(!is_success(400));
    assert!(!is_success(500));
    assert!(!is_success(u16::MAX));
}

#[test]
fn a_failure_keeps_status_and_body() {
    for status in [199u16, 300, 301, 400, 404, 500, 503] {
        assert_eq!(
            delivery_outcome(status, "as it came\n".to_string()),
            Err(DeliveryError::PlatformApiError { status, body: "as it came\n".to_string() })
        );
    }
    assert_eq!(delivery_outcome(201, "ignored".to_string()), Ok(()));
}

#[test]
fn the_url_joins_base_and_token_as_they_are() {
    let call = send_message_call("https://api.telegram.org/", "12:ab", -5, String::new());
    assert_eq!(call.url, "https://api.telegram.org//bot12:ab/sendMessage");
    assert_eq!(call.body.chat_id, -5);
    assert_eq!(call.body.text, "");
}

#[test]
fn a_transport_failure_is_no_delivery() {
    assert_eq!(
        delivery_result(Err("connection refused".to_string())),
        Err(DeliveryError::TransportError("connection refused".to_string()))
    );
    assert_eq!(delivery_result(Ok((200, String::new()))), Ok(()));
    assert_eq!(
        delivery_result(Ok((502, "Bad Gateway".to_string()))),
        Err(DeliveryError::PlatformApiError { status: 502, body: "Bad Gateway".to_string() })
    );
}
