//! What a response means, decided by its status and, for a failure, by its
//! body.
//!
//! The status alone decides what is done with the body. A status in the 2xx
//! range carries the answer. 401 and 429 are failures that are known without
//! the body, which is then left unread. After any other status the body is
//! read as text, and the failure carries the message of the error envelope
//! that the text holds, or the text itself where it holds none.

use vstd::prelude::*;
use crate::error::{prefixed, UcpError, UcpErrorView};
use crate::status::{status_line, HttpStatus};

verus! {

/// What to do with a response once its status is known.
#[derive(Debug, Clone, PartialEq, Eq)]
pub enum NextStep {
    /// The status is in the 2xx range: the body holds the answer.
    ReadAnswer,
    /// The status names the failure by itself. The body is not read.
    Fail(UcpError),
    /// The failure depends on the body: read it as text, and hand it to
    /// [`handle_error_response`].
    ReadErrorBody,
}

/// A next step with its texts as sequences of characters.
pub enum NextStepView {
    ReadAnswer,
    Fail(UcpErrorView),
    ReadErrorBody,
}

impl View for NextStep {
    type V = NextStepView;

    open spec fn view(&self) -> NextStepView {
        match *self {
            NextStep::ReadAnswer => NextStepView::ReadAnswer,
            NextStep::Fail(error) => NextStepView::Fail(error@),
            NextStep::ReadErrorBody => NextStepView::ReadErrorBody,
        }
    }
}

/// The body of a failed response, read as text.
#[derive(Debug, Clone, PartialEq, Eq)]
pub struct ErrorBody {
    /// The whole body.
    pub text: String,
    /// The message of the error envelope, where the body is one: a JSON
    /// object with a `message`, and optionally a `code` and `details`.
    pub envelope_message: Option<String>,
}

/// The body of a failed response as sequences of characters.
pub struct ErrorBodyView {
    pub text: Seq<char>,
    pub envelope_message: Option<Seq<char>>,
}

impl View for ErrorBody {
    type V = ErrorBodyView;

    open spec fn view(&self) -> ErrorBodyView {
        ErrorBodyView {
            text: self.text@,
            envelope_message: match self.envelope_message {
                Some(message) => Some(message@),
                None => None,
            },
        }
    }
}

/// The views of an optional body.
pub open spec fn body_view(body: Option<ErrorBody>) -> Option<ErrorBodyView> {
    match body {
        Some(body) => Some(body@),
        None => None,
    }
}

/// The message that stands for a body that could not be read.
pub open spec fn unreadable_body_message(code: u16) -> Seq<char> {
    "HTTP "@ + status_line(code) + " error"@
}

/// The message of a failure whose status does not name it: the message of
/// the envelope, else the text of the body, else the stand-in for a body
/// that could not be read.
pub open spec fn server_message(code: u16, body: Option<ErrorBodyView>) -> Seq<char> {
    match body {
        Some(body) => match body.envelope_message {
            Some(message) => message,
            None => body.text,
        },
        None => unreadable_body_message(code),
    }
}

/// The failure that a response outside the 2xx range stands for. The status
/// is looked at first: after 401 and 429 the body plays no part.
pub open spec fn classified(code: u16, body: Option<ErrorBodyView>) -> UcpErrorView {
    if code == 401 {
        UcpErrorView::AuthenticationError
    } else if code == 429 {
        UcpErrorView::RateLimitError
    } else {
        UcpErrorView::ServerError { message: server_message(code, body) }
    }
}

/// What is done with a response that has the status `code`.
pub open spec fn next_step(code: u16) -> NextStepView {
    if 200 <= code < 300 {
        NextStepView::ReadAnswer
    } else if code == 401 || code == 429 {
        NextStepView::Fail(classified(code, None))
    } else {
        NextStepView::ReadErrorBody
    }
}

/// Decides by the status what is done with a response.
pub fn handle_response(status: &HttpStatus) -> (step: NextStep)
    ensures
        step@ == next_step(status.code()),
{
    let code = status.as_u16();
    if status.is_success() {
        NextStep::ReadAnswer
    } else if code == 401 {
        NextStep::Fail(UcpError::AuthenticationError)
    } else if code == 429 {
        NextStep::Fail(UcpError::RateLimitError)
    } else {
        NextStep::ReadErrorBody
    }
}

/// The failure that a response outside the 2xx range stands for. `body` is
/// `None` where the body could not be read.
pub fn handle_error_response(status: &HttpStatus, body: Option<ErrorBody>) -> (error: UcpError)
    ensures
        error@ == classified(status.code(), body_view(body)),
{
    let code = status.as_u16();
    if code == 401 {
        UcpError::AuthenticationError
    } else if code == 429 {
        UcpError::RateLimitError
    } else {
        let message = match body {
            Some(body) => match body.envelope_message {
                Some(message) => message,
                None => body.text,
            },
            None => {
                let mut text = prefixed("HTTP ", status.to_text().as_str());
                text.append(" error");
                text
            },
        };
        UcpError::ServerError { message }
    }
}

/// What parsing a text as JSON came to: the value that the text holds, or
/// the failure with the words of the parser. This is how the body of an
/// answer and the text of a streamed record become a result.
pub fn parsed<T>(outcome: Result<T, String>) -> (result: Result<T, UcpError>)
    ensures
        match outcome {
            Ok(value) => result == Ok::<T, UcpError>(value),
            Err(detail) => result matches Err(error) && error@ == UcpErrorView::JsonError(
                detail@,
            ),
        },
{
    match outcome {
        Ok(value) => Ok(value),
        Err(detail) => Err(UcpError::JsonError(detail)),
    }
}

/// The status 401 always gives the authentication failure, whatever the
/// body holds, also where it is an error envelope.
pub proof fn lemma_unauthorized_ignores_body(body: Option<ErrorBodyView>)
    ensures
        classified(401, body) == UcpErrorView::AuthenticationError,
        next_step(401) == NextStepView::Fail(UcpErrorView::AuthenticationError),
{
}

/// The status 429 always gives the rate-limit failure, whatever the body
/// holds.
pub proof fn lemma_rate_limit_ignores_body(body: Option<ErrorBodyView>)
    ensures
        classified(429, body) == UcpErrorView::RateLimitError,
        next_step(429) == NextStepView::Fail(UcpErrorView::RateLimitError),
{
}

/// Any other status gives a server failure, with the message of the
/// envelope where the body is one, and the text of the body where it is
/// not.
pub proof fn lemma_server_error_message(code: u16, text: Seq<char>, message: Option<Seq<char>>)
    requires
        code != 401,
        code != 429,
    ensures
        classified(code, Some(ErrorBodyView { text, envelope_message: message }))
            == (UcpErrorView::ServerError {
            message: match message {
                Some(message) => message,
                None => text,
            },
        }),
{
}

} // verus!
