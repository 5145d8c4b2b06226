//! The client and its two endpoint facades.
//!
//! Each operation comes in two halves: one builds the request to send, the
//! other decides what the reply means. Sending is the caller's part.
use vstd::prelude::*;
use vstd::string::{StrSliceExecFns, StringExecFns};
use vstd::utf8::encode_utf8;
use crate::error::{ClientError, InvalidUri};
use crate::model::RegisterService;
use crate::request::{ContentType, Method, Request, RequestView};
use crate::response::{is_success, is_text_of, written_flag, Response};
use crate::uri::{parse, uri_is_absolute, uri_is_valid, ParsedUri};
use crate::wire::{register_service_text, ToJson};

verus! {

/// The path of the registration endpoint.
pub open spec fn register_path() -> Seq<char> {
    "/v1/agent/service/register"@
}

/// The path under which the key `key` is stored.
pub open spec fn kv_path(key: Seq<char>) -> Seq<char> {
    "/v1/kv/"@ + key
}

/// Whether `r` is what asking for a request to `target` gives: the request
/// with the given parts where the URI parser accepts `target`, and the
/// parser's rejection where it does not.
pub open spec fn is_request_to(
    r: Result<Request, InvalidUri>,
    target: Seq<char>,
    method: Method,
    content_type: ContentType,
    body: Seq<u8>,
) -> bool {
    match r {
        Ok(request) => uri_is_valid(target) && request@ == (RequestView {
            method,
            uri: target,
            content_type,
            body,
        }),
        Err(e) => e is Malformed && !uri_is_valid(target),
    }
}

/// A client bound to the base URI of one server.
#[derive(Debug)]
pub struct Client {
    base_uri: String,
}

/// The agent endpoint.
pub struct Agent<'a> {
    client: &'a Client,
}

/// The key-value store endpoint.
pub struct KV<'a> {
    client: &'a Client,
}

impl View for Client {
    type V = Seq<char>;

    /// The base URI, as text.
    closed spec fn view(&self) -> Seq<char> {
        self.base_uri@
    }
}

impl Client {
    /// Binds a client to the server at `url`, which must be a URI in absolute
    /// form. Nothing is sent.
    pub fn new(url: &str) -> (r: Result<Client, InvalidUri>)
        ensures
            match r {
                Ok(client) => uri_is_valid(url@) && uri_is_absolute(url@) && client@ == url@,
                Err(InvalidUri::Malformed(_)) => !uri_is_valid(url@),
                Err(InvalidUri::NotAbsolute) => uri_is_valid(url@) && !uri_is_absolute(url@),
            },
    {
        match parse(url) {
            Ok(uri) => Client::at(uri),
            Err(e) => Err(e),
        }
    }

    /// Binds a client to the server at the URI `base`, which must be in
    /// absolute form.
    pub fn at(base: ParsedUri) -> (r: Result<Client, InvalidUri>)
        ensures
            match r {
                Ok(client) => base.absolute && client@ == base.text@,
                Err(e) => e is NotAbsolute && !base.absolute,
            },
    {
        match base.into_absolute() {
            Ok(base_uri) => Ok(Client { base_uri }),
            Err(e) => Err(e),
        }
    }

    /// The base URI, as text.
    pub fn base_uri(&self) -> (text: &str)
        ensures
            text@ == self@,
    {
        self.base_uri.as_str()
    }

    /// The agent endpoint of this client.
    pub fn agent(&self) -> (agent: Agent<'_>)
        ensures
            agent.client() == self,
    {
        Agent { client: self }
    }

    /// The key-value store endpoint of this client.
    pub fn kv(&self) -> (kv: KV<'_>)
        ensures
            kv.client() == self,
    {
        KV { client: self }
    }

    /// Builds the request for `path` below the base URI. The path is appended
    /// to the base URI as it stands.
    pub fn request(&self, method: Method, path: &str, type_: ContentType, body: Vec<u8>) -> (r:
        Result<Request, InvalidUri>)
        ensures
            is_request_to(r, self@ + path@, method, type_, body@),
    {
        let mut target = self.base_uri.clone();
        target.append(path);
        match parse(target.as_str()) {
            Ok(uri) => Ok(Request::new(method, uri.text, type_, body)),
            Err(e) => Err(e),
        }
    }

    /// Builds the request for `path` whose body is the JSON text of `body`.
    pub fn request_json<T: ToJson>(&self, method: Method, path: &str, body: T) -> (r: Result<
        Request,
        InvalidUri,
    >)
        ensures
            is_request_to(
                r,
                self@ + path@,
                method,
                ContentType::Json,
                encode_utf8(body.json()),
            ),
    {
        let json = body.to_json();
        self.request(method, path, ContentType::Json, json.as_str().as_bytes_vec())
    }
}

impl<'a> Agent<'a> {
    /// The client that this endpoint belongs to.
    pub closed spec fn client(&self) -> &Client {
        self.client
    }

    /// Builds the request that registers `service` with the agent.
    pub fn register(&self, service: RegisterService) -> (r: Result<Request, InvalidUri>)
        ensures
            is_request_to(
                r,
                self.client()@ + register_path(),
                Method::Put,
                ContentType::Json,
                encode_utf8(register_service_text(service@)),
            ),
    {
        self.client.request_json(Method::Put, "/v1/agent/service/register", service)
    }

    /// Decides how a registration ended, given what the transport handed
    /// back: success on a status in the success range, whatever the body; the
    /// body as the error message on any other status; the transport's own
    /// error where no reply came.
    pub fn register_outcome(reply: Result<Response, hyper::Error>) -> (r: Result<
        (),
        ClientError,
    >)
        ensures
            match reply {
                Ok(response) => if is_success(response.status) {
                    r is Ok
                } else {
                    r matches Err(ClientError::Consul(message)) && is_text_of(
                        message@,
                        response.body@,
                    )
                },
                Err(e) => r == Err::<(), ClientError>(ClientError::Http(e)),
            },
    {
        match reply {
            Ok(response) => {
                if response.is_success() {
                    Ok(())
                } else {
                    Err(ClientError::Consul(response.text()))
                }
            },
            Err(e) => Err(ClientError::from(e)),
        }
    }
}

impl<'a> KV<'a> {
    /// The client that this endpoint belongs to.
    pub closed spec fn client(&self) -> &Client {
        self.client
    }

    /// Builds the request that stores `data` under the key `path`. The key is
    /// appended to the prefix as it stands.
    pub fn put(&self, path: &str, data: Vec<u8>) -> (r: Result<Request, InvalidUri>)
        ensures
            is_request_to(
                r,
                self.client()@ + kv_path(path@),
                Method::Put,
                ContentType::OctetStream,
                data@,
            ),
    {
        let mut uri = String::from_str("/v1/kv/");
        uri.append(path);
        proof {
            assert(self.client()@ + kv_path(path@) =~= self.client()@ + uri@);
        }
        self.client.request(Method::Put, uri.as_str(), ContentType::OctetStream, data)
    }

    /// Decides how a write ended, given what the transport handed back: the
    /// boolean that the body spells on a status in the success range; the
    /// body as the error message on any other status or any other body; the
    /// transport's own error where no reply came.
    pub fn put_outcome(reply: Result<Response, hyper::Error>) -> (r: Result<
        bool,
        ClientError,
    >)
        ensures
            match reply {
                Ok(response) => match written_flag(response.status, response.body@) {
                    Some(flag) => r == Ok::<bool, ClientError>(flag),
                    None => r matches Err(ClientError::Consul(message)) && is_text_of(
                        message@,
                        response.body@,
                    ),
                },
                Err(e) => r == Err::<bool, ClientError>(ClientError::Http(e)),
            },
    {
        match reply {
            Ok(response) => {
                if response.is_success() {
                    if response.says_true() {
                        return Ok(true);
                    }
                    if response.says_false() {
                        return Ok(false);
                    }
                }
                Err(ClientError::Consul(response.text()))
            },
            Err(e) => Err(ClientError::from(e)),
        }
    }
}

} // verus!
