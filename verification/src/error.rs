use vstd::prelude::*;

verus! {

/// Every way an operation of this library can fail.
///
/// Variants that stem from a transport or a parser carry that layer's message
/// as text.
#[derive(Debug, Clone, PartialEq)]
pub enum SpeechApiError {
    /// The streaming connection could not be opened or written to.
    WebSocketError(String),
    /// A message body did not have the expected structure.
    JsonError(String),
    /// A control-plane request failed in transport.
    HttpError(String),
    /// An operation did not finish in time.
    Timeout,
    /// An audio payload was not valid base64.
    InvalidAudioFormat,
    /// The service does not know the session.
    SessionNotFound,
    /// The credential was rejected.
    AuthenticationFailed,
    /// A setting or a provisioning response lacks something required.
    InvalidConfig(String),
    /// The peer went away without a closing handshake.
    ConnectionClosed,
}

pub type Result<T> = core::result::Result<T, SpeechApiError>;

impl SpeechApiError {
    /// The fixed part of the human-readable description of each kind.
    pub open spec fn spec_summary(self) -> Seq<char> {
        match self {
            SpeechApiError::WebSocketError(_) => "WebSocket connection error"@,
            SpeechApiError::JsonError(_) => "JSON serialization/deserialization error"@,
            SpeechApiError::HttpError(_) => "HTTP request error"@,
            SpeechApiError::Timeout => "Connection timeout"@,
            SpeechApiError::InvalidAudioFormat => "Invalid audio format"@,
            SpeechApiError::SessionNotFound => "Session not found"@,
            SpeechApiError::AuthenticationFailed => "Authentication failed"@,
            SpeechApiError::InvalidConfig(_) => "Invalid session configuration"@,
            SpeechApiError::ConnectionClosed => "Connection closed unexpectedly"@,
        }
    }

    /// The detail text carried by the kinds that have one.
    pub open spec fn spec_detail(self) -> Option<Seq<char>> {
        match self {
            SpeechApiError::WebSocketError(m) => Some(m@),
            SpeechApiError::JsonError(m) => Some(m@),
            SpeechApiError::HttpError(m) => Some(m@),
            SpeechApiError::InvalidConfig(m) => Some(m@),
            _ => None,
        }
    }

    /// What `message` returns: the summary, followed by a colon, a space and
    /// the detail where there is one.
    pub open spec fn spec_message(self) -> Seq<char> {
        match self.spec_detail() {
            Some(d) => self.spec_summary() + ": "@ + d,
            None => self.spec_summary(),
        }
    }

    fn summary(&self) -> (r: &'static str)
        ensures
            r@ == self.spec_summary(),
    {
        match self {
            SpeechApiError::WebSocketError(_) => "WebSocket connection error",
            SpeechApiError::JsonError(_) => "JSON serialization/deserialization error",
            SpeechApiError::HttpError(_) => "HTTP request error",
            SpeechApiError::Timeout => "Connection timeout",
            SpeechApiError::InvalidAudioFormat => "Invalid audio format",
            SpeechApiError::SessionNotFound => "Session not found",
            SpeechApiError::AuthenticationFailed => "Authentication failed",
            SpeechApiError::InvalidConfig(_) => "Invalid session configuration",
            SpeechApiError::ConnectionClosed => "Connection closed unexpectedly",
        }
    }

    /// Human-readable description of the error.
    pub fn message(&self) -> (r: String)
        ensures
            r@ == self.spec_message(),
    {
        let mut out = self.summary().to_owned();
        match self {
            SpeechApiError::WebSocketError(m)
            | SpeechApiError::JsonError(m)
            | SpeechApiError::HttpError(m)
            | SpeechApiError::InvalidConfig(m) => {
                out.append(": ");
                out.append(m.as_str());
            },
            _ => {},
        }
        out
    }
}

} // verus!
