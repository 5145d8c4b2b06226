//! A small client core for the agent and key-value endpoints of a
//! Consul-compatible HTTP API.
//!
//! The crate builds the requests of the two supported operations and decides
//! what a reply means. It performs no I/O itself: a caller sends each
//! [`Request`] over the transport of its choice and hands the reply back.
#![allow(non_snake_case)]

pub mod client;
pub mod error;
pub mod exchange;
pub mod json;
pub mod laws;
pub mod model;
pub mod request;
pub mod response;
pub mod uri;
pub mod wire;

pub use model::{Check, HealthService, Node, RegisterService, Service, TtlHealthCheck};
pub use client::{Agent, Client, KV};
pub use error::{ClientError, InvalidUri};
pub use exchange::{Event, Exchange};
pub use request::{ContentType, Method, Request};
pub use response::Response;
pub use wire::ToJson;
