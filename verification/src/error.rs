//! Typed application errors and their HTTP representation.

use vstd::prelude::*;
use vstd::string::*;
use vstd::utf8::*;

use crate::http::{bytes_of, Headers, Reply, ReplyView};
use crate::json::{json_text, object_of_one, text_value, write_text, Tree};

verus! {

/// What is known of a call to the Brave Search API that brought no response.
#[derive(Debug, Clone, Copy, PartialEq, Eq, Structural)]
pub struct TransportError {
    /// A deadline passed.
    pub timeout: bool,
    /// The connection could not be made.
    pub connect: bool,
    /// The response could not be decoded.
    pub decode: bool,
}

/// Every error condition the service surfaces to a client.
///
/// One variant per failure mode the caller treats differently, not per cause. Each maps
/// to a single HTTP status in [`AppError::into_response`].
#[derive(Debug)]
pub enum AppError {
    /// The upstream Brave Search API call failed (connect, timeout, or transport error).
    /// All of these become a `502 Bad Gateway` to our client.
    Upstream(TransportError),
    /// The request was malformed, e.g. a missing or invalid query parameter.
    BadRequest(String),
    /// A required setting was absent at startup.
    MissingConfig(&'static str),
    /// A configured value could not initialize a startup dependency, such as an
    /// unparseable URL. Like [`AppError::MissingConfig`], this aborts startup and never
    /// emits a response.
    InvalidConfig(String),
}

/// The mathematical value of an [`AppError`].
#[verifier::ext_equal]
pub enum ErrorView {
    Upstream(TransportError),
    BadRequest(Seq<char>),
    MissingConfig(Seq<char>),
    InvalidConfig(Seq<char>),
}

impl View for AppError {
    type V = ErrorView;

    open spec fn view(&self) -> ErrorView {
        match self {
            AppError::Upstream(err) => ErrorView::Upstream(*err),
            AppError::BadRequest(detail) => ErrorView::BadRequest(detail@),
            AppError::MissingConfig(name) => ErrorView::MissingConfig(name@),
            AppError::InvalidConfig(detail) => ErrorView::InvalidConfig(detail@),
        }
    }
}

/// The JSON document that tells a client of an error.
pub open spec fn error_document(message: Seq<char>) -> Tree {
    Tree::Object(seq![("error"@, Tree::Text(message))])
}

/// The reply that tells a client of an error: the status, and the message in a JSON body.
pub open spec fn error_reply(status: u16, message: Seq<char>) -> ReplyView {
    ReplyView {
        status,
        headers: seq![("content-type"@, encode_utf8("application/json"@))],
        body: encode_utf8(json_text(error_document(message))),
    }
}

/// The status and the message that a client gets for an error.
pub open spec fn shown(err: ErrorView) -> (u16, Seq<char>) {
    match err {
        ErrorView::Upstream(_) => (502, "upstream error"@),
        ErrorView::BadRequest(detail) => (400, detail),
        ErrorView::MissingConfig(_) => (500, "server misconfigured"@),
        ErrorView::InvalidConfig(_) => (500, "server misconfigured"@),
    }
}

/// The error as the logs tell it.
pub open spec fn described(err: ErrorView) -> Seq<char> {
    match err {
        ErrorView::Upstream(_) => "upstream Brave Search API call failed"@,
        ErrorView::BadRequest(detail) => "invalid request: "@ + detail,
        ErrorView::MissingConfig(name) => "missing required configuration: "@ + name,
        ErrorView::InvalidConfig(detail) => "invalid configuration: "@ + detail,
    }
}

/// The kind of failure behind an upstream error.
pub open spec fn failure_label(err: TransportError) -> Seq<char> {
    if err.timeout {
        "timeout"@
    } else if err.connect {
        "connect"@
    } else if err.decode {
        "decode"@
    } else {
        "transport"@
    }
}

/// A result with its error taken by its view.
pub open spec fn result_view<T>(result: Result<T, AppError>) -> Result<T, ErrorView> {
    match result {
        Ok(value) => Ok(value),
        Err(err) => Err(err@),
    }
}

/// A reply carrying `message` as a JSON error.
pub fn json_error(status: u16, message: &str) -> (reply: Reply)
    ensures
        reply@ == error_reply(status, message@),
{
    let document = object_of_one("error", text_value(message));
    let mut headers = Headers::new();
    headers.append("content-type", "application/json");
    let reply = Reply { status, headers, body: bytes_of(&write_text(&document)) };
    assert(reply@.headers == error_reply(status, message@).headers);
    reply
}

/// `prefix` followed by `rest`.
pub(crate) fn joined(prefix: &str, rest: &str) -> (text: String)
    ensures
        text@ == prefix@ + rest@,
{
    let mut text = prefix.to_owned();
    text.append(rest);
    text
}

impl AppError {
    /// The error as the logs tell it.
    pub fn message(&self) -> (text: String)
        ensures
            text@ == described(self@),
    {
        match self {
            AppError::Upstream(_) => "upstream Brave Search API call failed".to_owned(),
            AppError::BadRequest(detail) => joined("invalid request: ", detail),
            AppError::MissingConfig(name) => joined("missing required configuration: ", name),
            AppError::InvalidConfig(detail) => joined("invalid configuration: ", detail),
        }
    }

    /// The reply a client gets for the error. It sees only the message of the failure
    /// mode, never the cause of a server error.
    pub fn into_response(self) -> (reply: Reply)
        ensures
            reply@ == error_reply(shown(self@).0, shown(self@).1),
    {
        match self {
            AppError::Upstream(_) => json_error(502, "upstream error"),
            AppError::BadRequest(detail) => json_error(400, &detail),
            AppError::MissingConfig(_) => json_error(500, "server misconfigured"),
            AppError::InvalidConfig(_) => json_error(500, "server misconfigured"),
        }
    }
}

/// The kind of failure behind an upstream error, as a label value. A fixed set, so a
/// failing upstream cannot grow the number of series.
pub fn transport_failure(err: &TransportError) -> (label: &'static str)
    ensures
        label@ == failure_label(*err),
{
    if err.timeout {
        "timeout"
    } else if err.connect {
        "connect"
    } else if err.decode {
        "decode"
    } else {
        "transport"
    }
}

} // verus!
