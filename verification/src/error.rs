//! The failures the client reports.

use vstd::prelude::*;
use vstd::string::StringExecFns;
use crate::text::{concat3, decimal, u64_to_string};

verus! {

/// Why one request to the backend failed.
#[derive(Debug, PartialEq, Eq)]
pub enum RequestError {
    /// The pipe to the backend or the backend itself failed. The session is
    /// over.
    Transport,
    /// No response came within the per-request timeout. The session lives on.
    Timeout,
    /// The backend answered with an error object.
    Backend { code: i64, message: String },
    /// The session is not in a state that takes requests.
    NotReady,
    /// The session has ended.
    SessionClosed,
    /// The document that the request is about has not been opened.
    DocumentNotOpen,
    /// The session has given out every id it has.
    OutOfIds,
}

/// The mathematical value of a [`RequestError`].
pub enum RequestErrorView {
    Transport,
    Timeout,
    Backend { code: i64, message: Seq<char> },
    NotReady,
    SessionClosed,
    DocumentNotOpen,
    OutOfIds,
}

impl View for RequestError {
    type V = RequestErrorView;

    open spec fn view(&self) -> RequestErrorView {
        match self {
            RequestError::Transport => RequestErrorView::Transport,
            RequestError::Timeout => RequestErrorView::Timeout,
            RequestError::Backend { code, message } => RequestErrorView::Backend {
                code: *code,
                message: message@,
            },
            RequestError::NotReady => RequestErrorView::NotReady,
            RequestError::SessionClosed => RequestErrorView::SessionClosed,
            RequestError::DocumentNotOpen => RequestErrorView::DocumentNotOpen,
            RequestError::OutOfIds => RequestErrorView::OutOfIds,
        }
    }
}

impl Clone for RequestError {
    fn clone(&self) -> (res: Self)
        ensures
            res@ == self@,
    {
        match self {
            RequestError::Transport => RequestError::Transport,
            RequestError::Timeout => RequestError::Timeout,
            RequestError::Backend { code, message } => RequestError::Backend {
                code: *code,
                message: message.clone(),
            },
            RequestError::NotReady => RequestError::NotReady,
            RequestError::SessionClosed => RequestError::SessionClosed,
            RequestError::DocumentNotOpen => RequestError::DocumentNotOpen,
            RequestError::OutOfIds => RequestError::OutOfIds,
        }
    }
}

/// The decimal text of a signed number.
pub open spec fn signed_decimal(n: i64) -> Seq<char> {
    if n < 0 {
        "-"@ + decimal((-n) as nat)
    } else {
        decimal(n as nat)
    }
}

/// Writes a signed number in decimal.
pub fn i64_to_string(n: i64) -> (text: String)
    ensures
        text@ == signed_decimal(n),
{
    if n < 0 {
        let magnitude: u64 = if n == i64::MIN {
            9223372036854775808u64
        } else {
            (-n) as u64
        };
        let mut text = "-".to_owned();
        text.append(u64_to_string(magnitude).as_str());
        text
    } else {
        u64_to_string(n as u64)
    }
}

/// The text of a request error.
pub open spec fn request_error_text(error: RequestErrorView) -> Seq<char> {
    match error {
        RequestErrorView::Transport => "Connection to rust-analyzer was lost"@,
        RequestErrorView::Timeout => "Request to rust-analyzer timed out"@,
        RequestErrorView::Backend { code, message } => "rust-analyzer error "@ + signed_decimal(
            code,
        ) + ": "@ + message,
        RequestErrorView::NotReady => "Client not initialized"@,
        RequestErrorView::SessionClosed => "The rust-analyzer session has ended"@,
        RequestErrorView::DocumentNotOpen => "The document has not been opened"@,
        RequestErrorView::OutOfIds => "The session has no request id left"@,
    }
}

/// Whether a failure may pass while the backend builds its index: a
/// request that timed out, or one that the backend answered with an error.
/// Every other failure is one of the session and stays until the caller
/// acts.
pub open spec fn transient(error: RequestErrorView) -> bool {
    error is Timeout || error is Backend
}

impl RequestError {
    /// Whether the failure may pass while the backend builds its index.
    pub fn is_transient(&self) -> (yes: bool)
        ensures
            yes == transient(self@),
    {
        match self {
            RequestError::Timeout => true,
            RequestError::Backend { .. } => true,
            _ => false,
        }
    }

    /// The message for the caller. The error of the backend is given with
    /// its code and its message.
    pub fn message(&self) -> (text: String)
        ensures
            text@ == request_error_text(self@),
    {
        match self {
            RequestError::Transport => "Connection to rust-analyzer was lost".to_owned(),
            RequestError::Timeout => "Request to rust-analyzer timed out".to_owned(),
            RequestError::Backend { code, message } => {
                let mut text = "rust-analyzer error ".to_owned();
                text.append(i64_to_string(*code).as_str());
                text.append(": ");
                text.append(message.as_str());
                text
            },
            RequestError::NotReady => "Client not initialized".to_owned(),
            RequestError::SessionClosed => "The rust-analyzer session has ended".to_owned(),
            RequestError::DocumentNotOpen => "The document has not been opened".to_owned(),
            RequestError::OutOfIds => "The session has no request id left".to_owned(),
        }
    }
}

/// What the last poll of a readiness retry saw.
#[derive(Debug, PartialEq, Eq)]
pub enum LastObserved {
    /// A result that was null or an empty sequence.
    Empty,
    /// A failed request.
    Failed(RequestError),
}

/// The mathematical value of a [`LastObserved`].
pub enum LastObservedView {
    Empty,
    Failed(RequestErrorView),
}

impl View for LastObserved {
    type V = LastObservedView;

    open spec fn view(&self) -> LastObservedView {
        match self {
            LastObserved::Empty => LastObservedView::Empty,
            LastObserved::Failed(e) => LastObservedView::Failed(e@),
        }
    }
}

/// Why a readiness retry ended without a result.
#[derive(Debug, PartialEq, Eq)]
pub enum RetryError {
    /// The budget ran out before any poll was ready.
    IndexingTimeout { waited_secs: u64, last: LastObserved },
    /// A request failed in a way that no retry mends.
    Aborted(RequestError),
    /// The retry was cancelled.
    Cancelled,
    /// The retry had already ended.
    Finished,
}

/// The mathematical value of a [`RetryError`].
pub enum RetryErrorView {
    IndexingTimeout { waited_secs: u64, last: LastObservedView },
    Aborted(RequestErrorView),
    Cancelled,
    Finished,
}

impl View for RetryError {
    type V = RetryErrorView;

    open spec fn view(&self) -> RetryErrorView {
        match self {
            RetryError::IndexingTimeout { waited_secs, last } => RetryErrorView::IndexingTimeout {
                waited_secs: *waited_secs,
                last: last@,
            },
            RetryError::Aborted(e) => RetryErrorView::Aborted(e@),
            RetryError::Cancelled => RetryErrorView::Cancelled,
            RetryError::Finished => RetryErrorView::Finished,
        }
    }
}

/// What a timeout says of the last poll: that its result was empty, or the
/// failure of its request.
pub open spec fn last_observed_text(last: LastObservedView) -> Seq<char> {
    match last {
        LastObservedView::Empty => " The last result was empty."@,
        LastObservedView::Failed(e) => " The last request failed: "@ + request_error_text(e),
    }
}

/// The text of an indexing timeout after `waited_secs` seconds of waiting,
/// with what the last poll saw.
pub open spec fn indexing_timeout_text(waited_secs: u64, last: LastObservedView) -> Seq<char> {
    "Rust-analyzer is still indexing the project. Waited "@ + decimal(waited_secs as nat)
        + " seconds. The project may be large and need more time to complete indexing. Please try again in a moment."@
        + last_observed_text(last)
}

/// The text of a retry error.
pub open spec fn retry_error_text(error: RetryErrorView) -> Seq<char> {
    match error {
        RetryErrorView::IndexingTimeout { waited_secs, last } => indexing_timeout_text(
            waited_secs,
            last,
        ),
        RetryErrorView::Aborted(e) => request_error_text(e),
        RetryErrorView::Cancelled => "Request cancelled: the session was shut down"@,
        RetryErrorView::Finished => "The retry has already ended"@,
    }
}

impl LastObserved {
    /// What a timeout says of the last poll.
    pub fn message(&self) -> (text: String)
        ensures
            text@ == last_observed_text(self@),
    {
        match self {
            LastObserved::Empty => " The last result was empty.".to_owned(),
            LastObserved::Failed(e) => {
                let mut text = " The last request failed: ".to_owned();
                text.append(e.message().as_str());
                text
            },
        }
    }
}

impl RetryError {
    /// The message for the caller: for a timeout, how long was waited, the
    /// advice to try again, and what the last poll saw.
    pub fn message(&self) -> (text: String)
        ensures
            text@ == retry_error_text(self@),
    {
        match self {
            RetryError::IndexingTimeout { waited_secs, last } => {
                let secs = u64_to_string(*waited_secs);
                let mut text = concat3(
                    "Rust-analyzer is still indexing the project. Waited ",
                    secs.as_str(),
                    " seconds. The project may be large and need more time to complete indexing. Please try again in a moment.",
                );
                text.append(last.message().as_str());
                text
            },
            RetryError::Aborted(e) => e.message(),
            RetryError::Cancelled => "Request cancelled: the session was shut down".to_owned(),
            RetryError::Finished => "The retry has already ended".to_owned(),
        }
    }
}

} // verus!
