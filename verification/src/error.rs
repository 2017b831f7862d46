//! The closed error taxonomy of the client. Every failure of an API
//! operation is classified as exactly one of these variants; nothing is
//! recovered silently and no operation panics.

use vstd::prelude::*;
use vstd::string::StringExecFns;

verus! {

/// One classified failure of an API operation.
#[derive(Debug, Clone, PartialEq)]
pub enum Error {
    /// The provided API key was refused by the DeepL server (HTTP 401 or 403).
    AuthorizationError,
    /// An error occurred on the server side when processing a request
    /// (any other non-success HTTP status). Carries the server-supplied
    /// message when one could be decoded, else the HTTP status description.
    ServerError(String),
    /// A success response body did not match the expected JSON shape for the
    /// operation.
    DeserializationError,
    /// The request could not be completed at the network layer. Carries a
    /// description of the underlying transport failure.
    TransportError(String),
}

/// The human-readable description of an error value.
pub open spec fn spec_message(e: Error) -> Seq<char> {
    match e {
        Error::AuthorizationError => "Authorization failed, is your API key correct?"@,
        Error::ServerError(m) => "An error occurred while communicating with the DeepL server: '"@
            + m@ + "'."@,
        Error::DeserializationError => "An error occurred while deserializing the response data."@,
        Error::TransportError(m) => "An error occurred in the transport layer: '"@ + m@ + "'."@,
    }
}

impl Error {
    /// Renders the error as a human-readable message.
    pub fn message(&self) -> (r: String)
        ensures
            r@ == spec_message(*self),
    {
        match self {
            Error::AuthorizationError => String::from_str(
                "Authorization failed, is your API key correct?",
            ),
            Error::ServerError(m) => String::from_str(
                "An error occurred while communicating with the DeepL server: '",
            ).concat(m.as_str()).concat("'."),
            Error::DeserializationError => String::from_str(
                "An error occurred while deserializing the response data.",
            ),
            Error::TransportError(m) => String::from_str(
                "An error occurred in the transport layer: '",
            ).concat(m.as_str()).concat("'."),
        }
    }
}

} // verus!

verus! {

/// The mathematical shape of an [`Error`]: the variant with its message text
/// as a character sequence.
pub enum ErrorView {
    /// View of [`Error::AuthorizationError`].
    Authorization,
    /// View of [`Error::ServerError`].
    Server(Seq<char>),
    /// View of [`Error::DeserializationError`].
    Deserialization,
    /// View of [`Error::TransportError`].
    Transport(Seq<char>),
}

impl View for Error {
    type V = ErrorView;

    open spec fn view(&self) -> ErrorView {
        match self {
            Error::AuthorizationError => ErrorView::Authorization,
            Error::ServerError(m) => ErrorView::Server(m@),
            Error::DeserializationError => ErrorView::Deserialization,
            Error::TransportError(m) => ErrorView::Transport(m@),
        }
    }
}

} // verus!
