use vstd::prelude::*;
use reqwest::Error as TransportError;
use serde_json::Error as JsonError;

verus! {

#[verifier::external_type_specification]
#[verifier::external_body]
pub struct ExTransportError(TransportError);

#[verifier::external_type_specification]
#[verifier::external_body]
pub struct ExJsonError(JsonError);

/// Errors returned by the Meshbrow SDK.
#[derive(Debug)]
pub enum Error {
    /// HTTP request failed.
    Http(reqwest::Error),
    /// API returned an error response.
    Api { status: u16, body: String },
    /// Failed to parse response.
    Parse(serde_json::Error),
}

/// The mathematical value of an [`Error`].
pub enum ErrorView {
    Http(reqwest::Error),
    Api { status: u16, body: Seq<char> },
    Parse(serde_json::Error),
}

impl View for Error {
    type V = ErrorView;

    open spec fn view(&self) -> ErrorView {
        match self {
            Error::Http(e) => ErrorView::Http(*e),
            Error::Api { status, body } => ErrorView::Api { status: *status, body: body@ },
            Error::Parse(e) => ErrorView::Parse(*e),
        }
    }
}

} // verus!
