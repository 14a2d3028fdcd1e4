use buddha_notify::error::AppError;

#[test]
fn test_error_conversion() {
    let error = AppError::AuthenticationError("Invalid token".to_string());
    assert_eq!(error.status_code(), 401);
}

#[test]
fn test_error_json_response() {
    let error = AppError::DiscordNotifyError("Failed to send".to_string());
    assert_eq!(error.status_code(), 502);
}

#[test]
fn every_kind_has_its_status_and_code() {
    let s = || "x".to_string();
    let cases = vec![
        (AppError::AuthenticationError(s()), 401, "AUTHENTICATION_ERROR", "Authentication failed: x"),
        (AppError::HttpClientError(s()), 500, "HTTP_CLIENT_ERROR", "HTTP client error: x"),
        (AppError::CsvError(s()), 500, "CSV_ERROR", "CSV parsing error: x"),
        (AppError::CacheError(s()), 500, "CACHE_ERROR", "Cache error: x"),
        (AppError::DiscordNotifyError(s()), 502, "DISCORD_NOTIFY_ERROR", "Discord service error: x"),
        (AppError::ConfigError(s()), 500, "CONFIG_ERROR", "Configuration error: x"),
        (AppError::InternalError(s()), 500, "INTERNAL_ERROR", "Internal server error: x"),
    ];
    for (e, status, code, message) in cases {
        assert_eq!(e.status_code(), status);
        assert_eq!(e.error_type(), code);
        assert_eq!(e.message(), message);
    }
}
