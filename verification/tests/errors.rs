use blue_horizon::error::{should_enqueue_retry, AppError, ErrorResponse};

fn all() -> Vec<(AppError, &'static str, &'static str, bool)> {
    vec![
        (AppError::AuthenticationFailed("x".to_string()), "AUTH_FAILED", "Authentication failed: x", false),
        (AppError::SessionNotFound, "SESSION_NOT_FOUND", "Session not found", true),
        (AppError::NetworkError("x".to_string()), "NETWORK_ERROR", "Network error: x", true),
        (AppError::ApiError("x".to_string()), "API_ERROR", "API error: x", true),
        (AppError::KeyringError("x".to_string()), "KEYRING_ERROR", "Keyring error: x", false),
        (AppError::InternalError("x".to_string()), "INTERNAL_ERROR", "Internal error: x", false),
    ]
}

#[test]
fn every_error_has_its_code_and_text() {
    for (error, code, text, _) in all() {
        assert_eq!(error.code(), code);
        assert_eq!(error.message(), text);
        let response = ErrorResponse::from(error);
        assert_eq!(response.code, code);
        assert_eq!(response.message, text);
    }
}

#[test]
fn only_what_retrying_can_mend_is_queued() {
    for (error, _, _, retry) in all() {
        assert_eq!(should_enqueue_retry(&error), retry);
    }
}

#[test]
fn a_copy_of_an_error_is_the_same_error() {
    for (error, code, text, _) in all() {
        let copy = error.clone();
        assert_eq!(copy.code(), code);
        assert_eq!(copy.message(), text);
    }
}

#[test]
fn an_error_without_detail_keeps_its_prefix() {
    assert_eq!(AppError::ApiError(String::new()).message(), "API error: ");
}
