//! The course of one call, from the request to the reply.
//!
//! A call waits first for the head of the reply, which brings the status,
//! then for the whole body. Only a finished exchange has a reply to read, so
//! a body is never read before all of it is there. A failure of the transport
//! ends the exchange wherever it stands. A finished exchange stays as it is:
//! nothing is tried a second time.
use vstd::prelude::*;
use crate::response::Response;

verus! {

/// Where a call stands.
#[derive(Debug)]
pub enum Exchange {
    /// The request has not been handed to the transport yet.
    Idle,
    /// The request is on its way; the head of the reply is awaited.
    AwaitingHeaders,
    /// The head has come with this status; the body is being collected.
    AwaitingBody { status: u16 },
    /// The call is over: the reply came in full, or the transport failed.
    Finished(Result<Response, hyper::Error>),
}

/// What the transport reports of a call.
#[derive(Debug)]
pub enum Event {
    /// The request was handed to the transport.
    Dispatched,
    /// The head of the reply came, with this status.
    Headers { status: u16 },
    /// The body of the reply came in full.
    Body(Vec<u8>),
    /// The transport failed.
    Failed(hyper::Error),
}

impl Exchange {
    /// How far the call has come: 0 for an idle exchange, 3 for a finished
    /// one.
    pub open spec fn progress(self) -> nat {
        match self {
            Exchange::Idle => 0,
            Exchange::AwaitingHeaders => 1,
            Exchange::AwaitingBody { .. } => 2,
            Exchange::Finished(_) => 3,
        }
    }

    /// The exchange after `event`. An event that the exchange does not wait
    /// for leaves it as it is.
    pub open spec fn after(self, event: Event) -> Exchange {
        match (self, event) {
            (Exchange::Finished(reply), _) => Exchange::Finished(reply),
            (_, Event::Failed(e)) => Exchange::Finished(Err(e)),
            (Exchange::Idle, Event::Dispatched) => Exchange::AwaitingHeaders,
            (Exchange::AwaitingHeaders, Event::Headers { status }) => Exchange::AwaitingBody {
                status,
            },
            (Exchange::AwaitingBody { status }, Event::Body(body)) => Exchange::Finished(
                Ok(Response { status, body }),
            ),
            (exchange, _) => exchange,
        }
    }

    /// A call that has not begun.
    pub fn new() -> (exchange: Exchange)
        ensures
            exchange == Exchange::Idle,
    {
        Exchange::Idle
    }

    /// Takes the exchange one event further.
    pub fn step(self, event: Event) -> (next: Exchange)
        ensures
            next == self.after(event),
    {
        match self {
            Exchange::Finished(reply) => Exchange::Finished(reply),
            Exchange::Idle => match event {
                Event::Failed(e) => Exchange::Finished(Err(e)),
                Event::Dispatched => Exchange::AwaitingHeaders,
                _ => Exchange::Idle,
            },
            Exchange::AwaitingHeaders => match event {
                Event::Failed(e) => Exchange::Finished(Err(e)),
                Event::Headers { status } => Exchange::AwaitingBody { status },
                _ => Exchange::AwaitingHeaders,
            },
            Exchange::AwaitingBody { status } => match event {
                Event::Failed(e) => Exchange::Finished(Err(e)),
                Event::Body(body) => Exchange::Finished(Ok(Response { status, body })),
                _ => Exchange::AwaitingBody { status },
            },
        }
    }

    /// The reply or the transport's failure, once the call is over.
    pub fn into_reply(self) -> (reply: Option<Result<Response, hyper::Error>>)
        ensures
            reply == match self {
                Exchange::Finished(r) => Some(r),
                _ => None,
            },
    {
        match self {
            Exchange::Finished(r) => Some(r),
            _ => None,
        }
    }
}

} // verus!
