//! The kinds of failure that an operation can report.

use vstd::prelude::*;

verus! {

/// A failed operation. Each kind carries what is needed to describe it to a
/// person, and nothing to recover with.
#[derive(Debug, Clone, PartialEq, Eq)]
pub enum UcpError {
    /// No response was obtained from the server. Holds the transport's
    /// description of what went wrong.
    HttpError(String),
    /// Text or JSON of a response or of a streamed line was malformed.
    JsonError(String),
    /// The server answered outside the 2xx range.
    ServerError { message: String },
    /// The server answered 401.
    AuthenticationError,
    /// The server answered 429.
    RateLimitError,
    /// The configuration cannot be used to build a client.
    ConfigError(String),
}

/// A failure with its texts as sequences of characters.
pub enum UcpErrorView {
    HttpError(Seq<char>),
    JsonError(Seq<char>),
    ServerError { message: Seq<char> },
    AuthenticationError,
    RateLimitError,
    ConfigError(Seq<char>),
}

impl UcpErrorView {
    /// The sentence that describes the failure.
    pub open spec fn message(self) -> Seq<char> {
        match self {
            UcpErrorView::HttpError(detail) => "HTTP request failed: "@ + detail,
            UcpErrorView::JsonError(detail) => "JSON error: "@ + detail,
            UcpErrorView::ServerError { message } => "UCP server error: "@ + message,
            UcpErrorView::AuthenticationError => "Authentication failed"@,
            UcpErrorView::RateLimitError => "Rate limit exceeded"@,
            UcpErrorView::ConfigError(detail) => "Invalid configuration: "@ + detail,
        }
    }
}

impl View for UcpError {
    type V = UcpErrorView;

    open spec fn view(&self) -> UcpErrorView {
        match *self {
            UcpError::HttpError(detail) => UcpErrorView::HttpError(detail@),
            UcpError::JsonError(detail) => UcpErrorView::JsonError(detail@),
            UcpError::ServerError { message } => UcpErrorView::ServerError { message: message@ },
            UcpError::AuthenticationError => UcpErrorView::AuthenticationError,
            UcpError::RateLimitError => UcpErrorView::RateLimitError,
            UcpError::ConfigError(detail) => UcpErrorView::ConfigError(detail@),
        }
    }
}

impl UcpError {
    /// The sentence that describes the failure.
    pub fn message(&self) -> (text: String)
        ensures
            text@ == self@.message(),
    {
        match self {
            UcpError::HttpError(detail) => prefixed("HTTP request failed: ", detail.as_str()),
            UcpError::JsonError(detail) => prefixed("JSON error: ", detail.as_str()),
            UcpError::ServerError { message } => prefixed("UCP server error: ", message.as_str()),
            UcpError::AuthenticationError => "Authentication failed".to_string(),
            UcpError::RateLimitError => "Rate limit exceeded".to_string(),
            UcpError::ConfigError(detail) => prefixed("Invalid configuration: ", detail.as_str()),
        }
    }
}

/// `prefix` followed by `rest`.
pub(crate) fn prefixed(prefix: &str, rest: &str) -> (text: String)
    ensures
        text@ == prefix@ + rest@,
{
    let mut text = prefix.to_string();
    text.append(rest);
    text
}

} // verus!
