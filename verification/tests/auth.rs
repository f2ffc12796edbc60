//! The credential gate.

use tg_ai_companion::middleware::auth::{expected_token, validator, AuthError};

#[test]
fn the_gate_admits_the_expected_token() {
    assert_eq!(validator(Some("s3cret"), "s3cret"), Ok(()));
}

#[test]
fn the_gate_misses_an_absent_token() {
    assert_eq!(validator(None, "s3cret"), Err(AuthError::AuthMissing));
    assert_eq!(validator(None, ""), Err(AuthError::AuthMissing));
}

#[test]
fn the_gate_refuses_any_other_token() {
    for token in ["", "s3cre", "s3cret ", " s3cret", "S3CRET", "s3cret\n", "s3cre\u{0442}"] {
        assert_eq!(validator(Some(token), "s3cret"), Err(AuthError::AuthInvalid));
    }
}

#[test]
fn the_gate_compares_empty_tokens_too() {
    assert_eq!(validator(Some(""), ""), Ok(()));
    assert_eq!(validator(Some("x"), ""), Err(AuthError::AuthInvalid));
}

#[test]
fn both_refusals_are_bad_requests() {
    assert_eq!(AuthError::AuthMissing.status(), 400);
    assert_eq!(AuthError::AuthInvalid.status(), 400);
    assert_eq!(AuthError::AuthMissing.message(), "No Bearer Header");
    assert_eq!(AuthError::AuthInvalid.message(), "Authentication Error");
    let reply = AuthError::AuthMissing.reply();
    assert_eq!((reply.status, reply.body.as_str()), (400, "No Bearer Header"));
    let reply = AuthError::AuthInvalid.reply();
    assert_eq!((reply.status, reply.body.as_str()), (400, "Authentication Error"));
}

#[test]
fn an_unset_token_is_the_empty_token() {
    assert_eq!(expected_token(None), "");
    assert_eq!(expected_token(Some(String::new())), "");
    assert_eq!(expected_token(Some(" s3cret ".to_string())), " s3cret ");
}
