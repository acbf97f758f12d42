//! A client-side HTTP request pipeline: messages, an ordered middleware
//! chain, and the policies of the cache, redirect and content-decoding
//! middleware, as plain functions from what has happened to what to do next.
//!
//! Nothing here touches the network or the disk. A caller that does sends
//! what the functions of this crate ask it to send, and hands back what it
//! has received.

pub mod cache;
pub mod client;
pub mod config;
pub mod error;
pub mod extensions;
pub mod freshness;
pub mod headers;
pub mod message;
pub mod middleware;
pub mod one_off;
pub mod request;
pub mod request_builder;
pub mod response;
pub mod text;
pub mod url;

pub use client::Client;
pub use config::Config;
pub use error::Error;
pub use headers::Headers;
pub use message::Body;
pub use message::Method;
pub use message::StatusCode;
pub use one_off::connect;
pub use one_off::delete;
pub use one_off::get;
pub use one_off::head;
pub use one_off::options;
pub use one_off::patch;
pub use one_off::post;
pub use one_off::put;
pub use one_off::trace;
pub use request::Request;
pub use request_builder::RequestBuilder;
pub use response::DecodeError;
pub use response::Response;
pub use url::Url;
use vstd::prelude::*;

verus! {

/// Construct a new `Client`, capable of sending `Request`s and running a
/// middleware stack.
pub fn client<M>() -> (client: Client<M>)
    ensures
        client@ == (client::ClientView::<M> {
            config: config::default_config(),
            middleware: Seq::empty(),
            used: false,
        }),
{
    Client::new()
}

} // verus!
