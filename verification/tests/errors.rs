use publisher::error::{error_body_text, not_available_reply, unexpected_reply, AppError, PublishError};

#[test]
fn not_available_answers_404_naming_the_resource() {
    let reply = AppError::NotAvailableError("beta".to_string()).into_reply();
    assert_eq!(reply.status, 404);
    assert_eq!(reply.body, r#"{"error":"Resource beta is not available"}"#);
    let reply = not_available_reply("a\"b");
    assert_eq!(reply.body, r#"{"error":"Resource a\"b is not available"}"#);
}

#[test]
fn unexpected_answers_500_with_debug_text() {
    let reply = AppError::UnexpectedError(anyhow::Error::msg("broker went away")).into_reply();
    assert_eq!(reply.status, 500);
    assert!(reply.body.starts_with(r#"{"error":"broker went away"#));
    assert!(reply.body.ends_with("\"}"));
    let reply = unexpected_reply("boom");
    assert_eq!(reply.status, 500);
    assert_eq!(reply.body, r#"{"error":"boom"}"#);
}

#[test]
fn error_body_escapes_the_message() {
    assert_eq!(error_body_text("plain"), r#"{"error":"plain"}"#);
    assert_eq!(error_body_text("quote \" and \\ slash /"), r#"{"error":"quote \" and \\ slash /"}"#);
    assert_eq!(error_body_text("line\nbreak\ttab\u{1}"), r#"{"error":"line\nbreak\ttab\u0001"}"#);
    assert_eq!(error_body_text("été"), "{\"error\":\"été\"}");
    assert_eq!(error_body_text(""), r#"{"error":""}"#);
    assert_eq!(error_body_text("\u{8}\u{c}\r\u{1f}\u{7f}"), "{\"error\":\"\\b\\f\\r\\u001f\u{7f}\"}");
    assert_eq!(error_body_text("\u{10}\u{1b}"), r#"{"error":"\u0010\u001b"}"#);
}

#[test]
fn publish_errors_become_unexpected_errors() {
    let e: AppError = PublishError::Nack(anyhow::Error::msg("nacked")).into();
    match e {
        AppError::UnexpectedError(inner) => assert_eq!(inner.to_string(), "nacked"),
        _ => panic!("a nack is an unexpected error"),
    }
    let e: AppError = PublishError::Invalid(anyhow::Error::msg("no channel")).into();
    match e {
        AppError::UnexpectedError(inner) => assert_eq!(inner.to_string(), "no channel"),
        _ => panic!("an invalid publication is an unexpected error"),
    }
    let e: AppError = anyhow::Error::msg("db").into();
    assert!(matches!(e, AppError::UnexpectedError(_)));
}
