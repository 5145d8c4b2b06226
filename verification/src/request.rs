//! The requests that the client issues.
use vstd::prelude::*;

verus! {

/// An HTTP request method.
#[derive(Clone, Copy, Debug, PartialEq, Eq, Structural)]
pub enum Method {
    Options,
    Get,
    Post,
    Put,
    Delete,
    Head,
    Trace,
    Connect,
    Patch,
}

/// The media type of a request body.
#[derive(Clone, Copy, Debug, PartialEq, Eq, Structural)]
pub enum ContentType {
    /// `application/json`
    Json,
    /// `application/octet-stream`
    OctetStream,
}

/// The value of the content-type header for `t`.
pub open spec fn content_type_text(t: ContentType) -> Seq<char> {
    match t {
        ContentType::Json => "application/json"@,
        ContentType::OctetStream => "application/octet-stream"@,
    }
}

impl ContentType {
    /// The value of the content-type header.
    pub fn as_str(&self) -> (s: &'static str)
        ensures
            s@ == content_type_text(*self),
    {
        match self {
            ContentType::Json => "application/json",
            ContentType::OctetStream => "application/octet-stream",
        }
    }
}

/// One HTTP request, ready to be sent.
///
/// It carries two headers and no others: the content type, and the content
/// length, which is the length of the body.
#[derive(Debug)]
pub struct Request {
    pub method: Method,
    /// The target: the base URI of the client with the path behind it.
    pub uri: String,
    pub content_type: ContentType,
    pub body: Vec<u8>,
}

/// View of a [`Request`].
pub struct RequestView {
    pub method: Method,
    pub uri: Seq<char>,
    pub content_type: ContentType,
    pub body: Seq<u8>,
}

impl View for Request {
    type V = RequestView;

    open spec fn view(&self) -> RequestView {
        RequestView {
            method: self.method,
            uri: self.uri@,
            content_type: self.content_type,
            body: self.body@,
        }
    }
}

impl RequestView {
    /// The value of the content-length header: the length of the body.
    pub open spec fn content_length(self) -> nat {
        self.body.len()
    }
}

impl Request {
    /// The request with the given parts.
    pub fn new(method: Method, uri: String, content_type: ContentType, body: Vec<u8>) -> (request:
        Request)
        ensures
            request@ == (RequestView { method, uri: uri@, content_type, body: body@ }),
    {
        Request { method, uri, content_type, body }
    }

    /// The value of the content-length header.
    pub fn content_length(&self) -> (n: u64)
        ensures
            n == self@.content_length(),
    {
        self.body.len() as u64
    }
}

} // verus!
