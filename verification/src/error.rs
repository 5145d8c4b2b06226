//! The ways in which an operation can fail.
use vstd::prelude::*;

verus! {

/// `hyper::Error`, the failure of an HTTP exchange. It is carried through as
/// it comes; nothing here looks inside.
#[verifier::external_type_specification]
#[verifier::external_body]
pub struct ExTransportError(hyper::Error);

/// `hyper::error::UriError`, the URI parser's reason for a rejection. It is
/// carried through as it comes; nothing here looks inside.
#[verifier::external_type_specification]
#[verifier::external_body]
pub struct ExUriParseError(hyper::error::UriError);

/// Why an operation failed.
///
/// The two kinds are kept apart so that a caller can tell "no reply was
/// delivered" from "the server replied with a failure".
#[derive(Debug)]
pub enum ClientError {
    /// The HTTP exchange itself failed; the transport's error is the cause.
    Http(hyper::Error),
    /// The server replied, and the reply does not mean success. The message
    /// is the reply's body as text.
    Consul(String),
}

impl From<hyper::Error> for ClientError {
    fn from(e: hyper::Error) -> (r: ClientError) {
        ClientError::Http(e)
    }
}

impl vstd::std_specs::convert::FromSpecImpl<hyper::Error> for ClientError {
    open spec fn obeys_from_spec() -> bool {
        true
    }

    open spec fn from_spec(e: hyper::Error) -> ClientError {
        ClientError::Http(e)
    }
}

/// Why a text cannot serve as a URI.
#[derive(Debug)]
pub enum InvalidUri {
    /// The URI parser rejected the text.
    Malformed(hyper::error::UriError),
    /// The text is a URI, but not one in absolute form.
    NotAbsolute,
}

} // verus!
