//! The error type shared by every fallible operation of the library.

use vstd::prelude::*;
use vstd::string::StringExecFns;

verus! {

/// Errors reported by the client.
///
/// Failures that originate in the HTTP, JSON, I/O or URL layers carry the
/// description given by that layer.
#[derive(Debug, PartialEq, Eq)]
pub enum Error {
    Http(String),
    WebSocket(String),
    Json(String),
    Authentication(String),
    AuthenticationTimeout,
    MissingCredentials,
    Unauthenticated,
    InvalidModeForChannel { channel: String, mode: String },
    Connection(String),
    Io(String),
    UrlParse(String),
    General(String),
}

/// Mathematical view of [`Error`]: the same variants over character sequences.
pub enum ErrorView {
    Http(Seq<char>),
    WebSocket(Seq<char>),
    Json(Seq<char>),
    Authentication(Seq<char>),
    AuthenticationTimeout,
    MissingCredentials,
    Unauthenticated,
    InvalidModeForChannel { channel: Seq<char>, mode: Seq<char> },
    Connection(Seq<char>),
    Io(Seq<char>),
    UrlParse(Seq<char>),
    General(Seq<char>),
}

impl ErrorView {
    /// The human-readable description of the error.
    pub open spec fn message(self) -> Seq<char> {
        match self {
            ErrorView::Http(m) => "HTTP request failed: "@ + m,
            ErrorView::WebSocket(m) => "WebSocket error: "@ + m,
            ErrorView::Json(m) => "JSON serialization error: "@ + m,
            ErrorView::Authentication(m) => "Authentication failed: "@ + m,
            ErrorView::AuthenticationTimeout => "Authentication timeout"@,
            ErrorView::MissingCredentials => "Missing credentials"@,
            ErrorView::Unauthenticated => "Unauthenticated"@,
            ErrorView::InvalidModeForChannel { channel, mode } => "Invalid mode for channel: "@
                + channel + " not supported in "@ + mode + " mode"@,
            ErrorView::Connection(m) => "Connection error: "@ + m,
            ErrorView::Io(m) => "IO error: "@ + m,
            ErrorView::UrlParse(m) => "URL parse error: "@ + m,
            ErrorView::General(m) => "General error: "@ + m,
        }
    }
}

impl View for Error {
    type V = ErrorView;

    open spec fn view(&self) -> ErrorView {
        match self {
            Error::Http(m) => ErrorView::Http(m@),
            Error::WebSocket(m) => ErrorView::WebSocket(m@),
            Error::Json(m) => ErrorView::Json(m@),
            Error::Authentication(m) => ErrorView::Authentication(m@),
            Error::AuthenticationTimeout => ErrorView::AuthenticationTimeout,
            Error::MissingCredentials => ErrorView::MissingCredentials,
            Error::Unauthenticated => ErrorView::Unauthenticated,
            Error::InvalidModeForChannel { channel, mode } => ErrorView::InvalidModeForChannel {
                channel: channel@,
                mode: mode@,
            },
            Error::Connection(m) => ErrorView::Connection(m@),
            Error::Io(m) => ErrorView::Io(m@),
            Error::UrlParse(m) => ErrorView::UrlParse(m@),
            Error::General(m) => ErrorView::General(m@),
        }
    }
}

impl Clone for Error {
    fn clone(&self) -> (copy: Self)
        ensures
            copy == *self,
    {
        match self {
            Error::Http(m) => Error::Http(m.clone()),
            Error::WebSocket(m) => Error::WebSocket(m.clone()),
            Error::Json(m) => Error::Json(m.clone()),
            Error::Authentication(m) => Error::Authentication(m.clone()),
            Error::AuthenticationTimeout => Error::AuthenticationTimeout,
            Error::MissingCredentials => Error::MissingCredentials,
            Error::Unauthenticated => Error::Unauthenticated,
            Error::InvalidModeForChannel { channel, mode } => Error::InvalidModeForChannel {
                channel: channel.clone(),
                mode: mode.clone(),
            },
            Error::Connection(m) => Error::Connection(m.clone()),
            Error::Io(m) => Error::Io(m.clone()),
            Error::UrlParse(m) => Error::UrlParse(m.clone()),
            Error::General(m) => Error::General(m.clone()),
        }
    }
}

/// An outcome with its error, if any, replaced by the error's view.
pub open spec fn outcome_view<T>(outcome: Result<T, Error>) -> Result<T, ErrorView> {
    match outcome {
        Ok(value) => Ok(value),
        Err(error) => Err(error@),
    }
}

/// An answer that is a text, seen as a character sequence, with its error,
/// if any, replaced by the error's view.
pub open spec fn text_answer(answer: Result<String, Error>) -> Result<Seq<char>, ErrorView> {
    match answer {
        Ok(text) => Ok(text@),
        Err(error) => Err(error@),
    }
}

/// `prefix` followed by `detail`.
fn prefixed(prefix: &str, detail: &str) -> (text: String)
    ensures
        text@ == prefix@ + detail@,
{
    String::from_str(prefix).concat(detail)
}

impl Error {
    /// A transport-level failure with the given description.
    pub fn websocket(msg: &str) -> (e: Error)
        ensures
            e@ == ErrorView::WebSocket(msg@),
    {
        Error::WebSocket(String::from_str(msg))
    }

    /// An authentication failure with the given description.
    pub fn authentication(msg: &str) -> (e: Error)
        ensures
            e@ == ErrorView::Authentication(msg@),
    {
        Error::Authentication(String::from_str(msg))
    }

    /// A connection failure with the given description.
    pub fn connection(msg: &str) -> (e: Error)
        ensures
            e@ == ErrorView::Connection(msg@),
    {
        Error::Connection(String::from_str(msg))
    }

    /// A failure that fits no other kind, with the given description.
    pub fn general(msg: &str) -> (e: Error)
        ensures
            e@ == ErrorView::General(msg@),
    {
        Error::General(String::from_str(msg))
    }

    /// The human-readable description of the error.
    pub fn message(&self) -> (text: String)
        ensures
            text@ == self@.message(),
    {
        match self {
            Error::Http(m) => prefixed("HTTP request failed: ", m.as_str()),
            Error::WebSocket(m) => prefixed("WebSocket error: ", m.as_str()),
            Error::Json(m) => prefixed("JSON serialization error: ", m.as_str()),
            Error::Authentication(m) => prefixed("Authentication failed: ", m.as_str()),
            Error::AuthenticationTimeout => String::from_str("Authentication timeout"),
            Error::MissingCredentials => String::from_str("Missing credentials"),
            Error::Unauthenticated => String::from_str("Unauthenticated"),
            Error::InvalidModeForChannel { channel, mode } => {
                prefixed("Invalid mode for channel: ", channel.as_str()).concat(
                    " not supported in ",
                ).concat(mode.as_str()).concat(" mode")
            },
            Error::Connection(m) => prefixed("Connection error: ", m.as_str()),
            Error::Io(m) => prefixed("IO error: ", m.as_str()),
            Error::UrlParse(m) => prefixed("URL parse error: ", m.as_str()),
            Error::General(m) => prefixed("General error: ", m.as_str()),
        }
    }
}

} // verus!
