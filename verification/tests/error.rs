use ucp_client::UcpError;

#[test]
fn error_messages() {
    assert_eq!(
        UcpError::HttpError("connection refused".to_string()).message(),
        "HTTP request failed: connection refused"
    );
    assert_eq!(
        UcpError::JsonError("expected value at line 1 column 1".to_string()).message(),
        "JSON error: expected value at line 1 column 1"
    );
    assert_eq!(
        UcpError::ServerError { message: "db unavailable".to_string() }.message(),
        "UCP server error: db unavailable"
    );
    assert_eq!(UcpError::AuthenticationError.message(), "Authentication failed");
    assert_eq!(UcpError::RateLimitError.message(), "Rate limit exceeded");
    assert_eq!(
        UcpError::ConfigError("Invalid API key format".to_string()).message(),
        "Invalid configuration: Invalid API key format"
    );
}
