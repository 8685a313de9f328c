use videotaxi_speech_rs::SpeechApiError;

#[test]
fn messages_of_plain_kinds() {
    assert_eq!(SpeechApiError::Timeout.message(), "Connection timeout");
    assert_eq!(SpeechApiError::InvalidAudioFormat.message(), "Invalid audio format");
    assert_eq!(SpeechApiError::SessionNotFound.message(), "Session not found");
    assert_eq!(SpeechApiError::AuthenticationFailed.message(), "Authentication failed");
    assert_eq!(SpeechApiError::ConnectionClosed.message(), "Connection closed unexpectedly");
}

#[test]
fn messages_of_kinds_with_detail() {
    assert_eq!(
        SpeechApiError::WebSocketError("refused".to_string()).message(),
        "WebSocket connection error: refused"
    );
    assert_eq!(
        SpeechApiError::JsonError("eof".to_string()).message(),
        "JSON serialization/deserialization error: eof"
    );
    assert_eq!(
        SpeechApiError::HttpError("dns".to_string()).message(),
        "HTTP request error: dns"
    );
    assert_eq!(
        SpeechApiError::InvalidConfig("no token".to_string()).message(),
        "Invalid session configuration: no token"
    );
}
