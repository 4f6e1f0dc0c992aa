use auth_core::error::AppError;
use auth_core::response::Response;

const KINDS: [AppError; 10] = [
    AppError::Success,
    AppError::Error,
    AppError::Database,
    AppError::UserNotFound,
    AppError::Unauthorized,
    AppError::InvalidToken,
    AppError::Forbidden,
    AppError::FrequencyLimited,
    AppError::UserExists,
    AppError::PasswordIncorrect,
];

#[test]
fn codes_follow_the_taxonomy() {
    assert_eq!(AppError::Success.code(), 0);
    assert_eq!(AppError::Error.code(), 1000);
    assert_eq!(AppError::Database.code(), 1001);
    assert_eq!(AppError::UserNotFound.code(), 1002);
    assert_eq!(AppError::Unauthorized.code(), 1003);
    assert_eq!(AppError::InvalidToken.code(), 1004);
    assert_eq!(AppError::Forbidden.code(), 1005);
    assert_eq!(AppError::FrequencyLimited.code(), 1006);
    assert_eq!(AppError::UserExists.code(), 1007);
    assert_eq!(AppError::PasswordIncorrect.code(), 1008);
}

#[test]
fn codes_are_pairwise_different() {
    for (i, a) in KINDS.iter().enumerate() {
        for b in KINDS.iter().skip(i + 1) {
            assert_ne!(a.code(), b.code());
        }
    }
}

#[test]
fn english_messages() {
    assert_eq!(AppError::Success.message("en"), "Success");
    assert_eq!(AppError::Error.message("en"), "Error");
    assert_eq!(AppError::Database.message("en"), "Database error");
    assert_eq!(AppError::UserNotFound.message("en"), "User not found");
    assert_eq!(AppError::Unauthorized.message("en"), "Unauthorized");
    assert_eq!(AppError::InvalidToken.message("en"), "Token invalid");
    assert_eq!(AppError::Forbidden.message("en"), "Forbidden");
    assert_eq!(AppError::FrequencyLimited.message("en"), "Frequency limited");
    assert_eq!(AppError::UserExists.message("en"), "User exists");
    assert_eq!(AppError::PasswordIncorrect.message("en"), "Password incorrect");
}

#[test]
fn unknown_language_falls_back_to_english() {
    for kind in KINDS.iter() {
        assert_eq!(kind.message("tlh"), kind.message("en"));
        assert_eq!(kind.message(""), kind.message("en"));
    }
}

#[test]
fn success_envelope_carries_the_payload() {
    let response = Response::success(Some(41u32), Some("en"));
    assert_eq!(response.code, 0);
    assert_eq!(response.msg, "Success");
    assert_eq!(response.data, Some(41));
}

#[test]
fn success_envelope_without_payload_or_language() {
    let response = Response::<()>::success(None, None);
    assert_eq!(response.code, 0);
    assert_eq!(response.msg, "Success");
    assert!(response.data.is_none());
}

#[test]
fn error_envelope_has_code_message_and_no_payload() {
    let response = Response::<String>::error(AppError::FrequencyLimited, None);
    assert_eq!(response.code, 1006);
    assert_eq!(response.msg, "Frequency limited");
    assert!(response.data.is_none());

    let response = Response::<()>::error(AppError::UserExists, Some("xx"));
    assert_eq!(response.code, 1007);
    assert_eq!(response.msg, "User exists");
    assert!(response.data.is_none());
}

#[test]
fn envelope_is_written_out_with_code_and_message() {
    let response = Response::<()>::error(AppError::UserExists, None);
    assert_eq!(response.to_text(), r#"{ "code": 1007, "msg": "User exists" }"#);
    let response = Response::success(Some(7u8), Some("en"));
    assert_eq!(response.to_text(), r#"{ "code": 0, "msg": "Success" }"#);
    let response = Response::<()> { code: -12, msg: String::new(), data: None };
    assert_eq!(response.to_text(), r#"{ "code": -12, "msg": "" }"#);
}
