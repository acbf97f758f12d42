//! One-off requests: a request builder for a method and a URL, without a
//! client of its own.

use crate::error::Error;
use crate::message::Method;
use crate::request::RequestView;
use crate::request_builder::RequestBuilder;
use crate::request_builder::RequestBuilderView;
use crate::url::parsed_url;
use crate::url::Url;
use vstd::prelude::*;

verus! {

/// The builder that a one-off function gives for a method and the
/// serialization of a URL.
pub open spec fn one_off<M>(method: Method, url: Seq<char>) -> RequestBuilderView<M> {
    RequestBuilderView {
        req: RequestView {
            method,
            url,
            headers: crate::headers::no_entries(),
            body: Seq::empty(),
            middleware: Seq::empty(),
            ext: Map::empty(),
        },
        client: None,
    }
}

/// Begins a request with the given method for the absolute URL `uri`.
pub fn request<M>(method: Method, uri: &str) -> (res: Result<RequestBuilder<M>, Error>)
    ensures
        match parsed_url(uri@) {
            Some(url) => res is Ok && res->Ok_0@ == one_off::<M>(method, url),
            None => res matches Err(Error::Url(_)),
        },
{
    match Url::parse(uri) {
        Ok(url) => Ok(RequestBuilder::new(method, url)),
        Err(e) => Err(e),
    }
}

/// Perform a one-off `GET` request.
///
/// # Errors
///
/// A malformed URL is refused.
pub fn get<M>(uri: &str) -> (res: Result<RequestBuilder<M>, Error>)
    ensures
        match parsed_url(uri@) {
            Some(url) => res is Ok && res->Ok_0@ == one_off::<M>(Method::Get, url),
            None => res matches Err(Error::Url(_)),
        },
{
    request(Method::Get, uri)
}

/// Perform a one-off `HEAD` request.
///
/// # Errors
///
/// A malformed URL is refused.
pub fn head<M>(uri: &str) -> (res: Result<RequestBuilder<M>, Error>)
    ensures
        match parsed_url(uri@) {
            Some(url) => res is Ok && res->Ok_0@ == one_off::<M>(Method::Head, url),
            None => res matches Err(Error::Url(_)),
        },
{
    request(Method::Head, uri)
}

/// Perform a one-off `POST` request.
///
/// # Errors
///
/// A malformed URL is refused.
pub fn post<M>(uri: &str) -> (res: Result<RequestBuilder<M>, Error>)
    ensures
        match parsed_url(uri@) {
            Some(url) => res is Ok && res->Ok_0@ == one_off::<M>(Method::Post, url),
            None => res matches Err(Error::Url(_)),
        },
{
    request(Method::Post, uri)
}

/// Perform a one-off `PUT` request.
///
/// # Errors
///
/// A malformed URL is refused.
pub fn put<M>(uri: &str) -> (res: Result<RequestBuilder<M>, Error>)
    ensures
        match parsed_url(uri@) {
            Some(url) => res is Ok && res->Ok_0@ == one_off::<M>(Method::Put, url),
            None => res matches Err(Error::Url(_)),
        },
{
    request(Method::Put, uri)
}

/// Perform a one-off `DELETE` request.
///
/// # Errors
///
/// A malformed URL is refused.
pub fn delete<M>(uri: &str) -> (res: Result<RequestBuilder<M>, Error>)
    ensures
        match parsed_url(uri@) {
            Some(url) => res is Ok && res->Ok_0@ == one_off::<M>(Method::Delete, url),
            None => res matches Err(Error::Url(_)),
        },
{
    request(Method::Delete, uri)
}

/// Perform a one-off `CONNECT` request.
///
/// # Errors
///
/// A malformed URL is refused.
pub fn connect<M>(uri: &str) -> (res: Result<RequestBuilder<M>, Error>)
    ensures
        match parsed_url(uri@) {
            Some(url) => res is Ok && res->Ok_0@ == one_off::<M>(Method::Connect, url),
            None => res matches Err(Error::Url(_)),
        },
{
    request(Method::Connect, uri)
}

/// Perform a one-off `OPTIONS` request.
///
/// # Errors
///
/// A malformed URL is refused.
pub fn options<M>(uri: &str) -> (res: Result<RequestBuilder<M>, Error>)
    ensures
        match parsed_url(uri@) {
            Some(url) => res is Ok && res->Ok_0@ == one_off::<M>(Method::Options, url),
            None => res matches Err(Error::Url(_)),
        },
{
    request(Method::Options, uri)
}

/// Perform a one-off `TRACE` request.
///
/// # Errors
///
/// A malformed URL is refused.
pub fn trace<M>(uri: &str) -> (res: Result<RequestBuilder<M>, Error>)
    ensures
        match parsed_url(uri@) {
            Some(url) => res is Ok && res->Ok_0@ == one_off::<M>(Method::Trace, url),
            None => res matches Err(Error::Url(_)),
        },
{
    request(Method::Trace, uri)
}

/// Perform a one-off `PATCH` request.
///
/// # Errors
///
/// A malformed URL is refused.
pub fn patch<M>(uri: &str) -> (res: Result<RequestBuilder<M>, Error>)
    ensures
        match parsed_url(uri@) {
            Some(url) => res is Ok && res->Ok_0@ == one_off::<M>(Method::Patch, url),
            None => res matches Err(Error::Url(_)),
        },
{
    request(Method::Patch, uri)
}

} // verus!
