//! Request builder: a request in the making, and the client that will send
//! it.

use crate::client::Client;
use crate::client::ClientView;
use crate::client::Dispatch;
use crate::headers::canonical_name;
use crate::headers::joined;
use crate::headers::valid_name;
use crate::headers::valid_value;
use crate::headers::HeaderError;
use crate::message::Body;
use crate::message::Method;
use crate::request::Request;
use crate::request::RequestView;
use crate::response::Mime;
use crate::url::query_replaced;
use crate::url::Url;
use vstd::prelude::*;

verus! {

/// Request Builder
///
/// Provides an ergonomic way to chain the creation of a request.
#[derive(Debug)]
pub struct RequestBuilder<M> {
    /// Holds the state of the request.
    req: Request<M>,
    /// Holds the client that sends the request.
    client: Option<Client<M>>,
}

/// What a request builder is, as mathematics.
pub struct RequestBuilderView<M> {
    pub req: RequestView<M>,
    pub client: Option<ClientView<M>>,
}

impl<M> View for RequestBuilder<M> {
    type V = RequestBuilderView<M>;

    closed spec fn view(&self) -> RequestBuilderView<M> {
        RequestBuilderView {
            req: self.req@,
            client: match self.client {
                Some(c) => Some(c@),
                None => None,
            },
        }
    }
}

impl<M> RequestBuilder<M> {
    /// Create a new instance.
    pub fn new(method: Method, url: Url) -> (builder: Self)
        ensures
            builder@ == (RequestBuilderView::<M> {
                req: RequestView {
                    method,
                    url: url@,
                    headers: crate::headers::no_entries(),
                    body: Seq::empty(),
                    middleware: Seq::empty(),
                    ext: Map::empty(),
                },
                client: None,
            }),
    {
        RequestBuilder { req: Request::new(method, url), client: None }
    }

    /// Gives the request the client that sends it, and the headers of that
    /// client's configuration, which come after the headers that the request
    /// has already.
    pub fn with_client(self, client: Client<M>) -> (res: Result<Self, HeaderError>)
        ensures
            res matches Ok(builder) ==> builder@ == (RequestBuilderView {
                req: RequestView {
                    headers: joined(self@.req.headers, client@.config.headers),
                    ..self@.req
                },
                client: Some(client@),
            }),
            client@.config.headers == crate::headers::no_entries() ==> res is Ok,
            crate::headers::room_for(self@.req.headers, client@.config.headers.dom().len())
                ==> res is Ok,
    {
        let mut builder = self;
        match builder.req.extend_headers(&client.config().headers) {
            Ok(_) => {},
            Err(e) => {
                return Err(e);
            },
        }
        builder.client = Some(client);
        Ok(builder)
    }

    /// Sets a header on the request.
    pub fn header(self, key: &str, value: &[u8]) -> (res: Result<Self, HeaderError>)
        ensures
            !valid_name(key@) ==> res matches Err(HeaderError::InvalidName),
            valid_name(key@) && !valid_value(value@) ==> res matches Err(HeaderError::InvalidValue),
            valid_name(key@) && valid_value(value@) ==> (res is Ok || res matches Err(
                HeaderError::TooManyHeaders,
            )),
            valid_name(key@) && valid_value(value@) && crate::headers::has_room(
                self@.req.headers,
            ) ==> res is Ok,
            res matches Ok(builder) ==> builder@ == (RequestBuilderView {
                req: RequestView {
                    headers: self@.req.headers.insert(canonical_name(key@), seq![value@]),
                    ..self@.req
                },
                ..self@
            }),
    {
        let mut builder = self;
        match builder.req.set_header(key, value) {
            Ok(_) => Ok(builder),
            Err(e) => Err(e),
        }
    }

    /// Sets the Content-Type header on the request, in place of any value
    /// that the header had. A media type whose text cannot stand in a header
    /// is refused.
    pub fn content_type(self, content_type: &Mime) -> (res: Result<Self, HeaderError>)
        ensures
            !valid_value(vstd::utf8::encode_utf8(content_type.source@)) ==> res matches Err(
                HeaderError::InvalidValue,
            ),
            valid_value(vstd::utf8::encode_utf8(content_type.source@)) ==> (res is Ok
                || res matches Err(HeaderError::TooManyHeaders)),
            valid_value(vstd::utf8::encode_utf8(content_type.source@)) && crate::headers::has_room(
                self@.req.headers,
            ) ==> res is Ok,
            res matches Ok(builder) ==> builder@ == (RequestBuilderView {
                req: RequestView {
                    headers: self@.req.headers.insert(
                        "content-type"@,
                        seq![vstd::utf8::encode_utf8(content_type.source@)],
                    ),
                    ..self@.req
                },
                ..self@
            }),
    {
        let mut builder = self;
        match builder.req.set_content_type(content_type) {
            Ok(_) => Ok(builder),
            Err(e) => Err(e),
        }
    }

    /// Sets the body of the request.
    pub fn body(self, body: Body) -> (builder: Self)
        ensures
            builder@ == (RequestBuilderView {
                req: RequestView { body: body@, ..self@.req },
                ..self@
            }),
    {
        let mut builder = self;
        builder.req.set_body(body);
        builder
    }

    /// Pass a string as the request body.
    pub fn body_string(self, string: String) -> (builder: Self)
        ensures
            builder@ == (RequestBuilderView {
                req: RequestView { body: vstd::utf8::encode_utf8(string@), ..self@.req },
                ..self@
            }),
    {
        self.body(Body::from_string(string))
    }

    /// Pass bytes as the request body.
    pub fn body_bytes(self, bytes: Vec<u8>) -> (builder: Self)
        ensures
            builder@ == (RequestBuilderView {
                req: RequestView { body: bytes@, ..self@.req },
                ..self@
            }),
    {
        self.body(Body::from_bytes(bytes))
    }

    /// Set the URL querystring, given in its encoded form. A query that
    /// would make the URL too long is not set.
    pub fn query(self, query: &str) -> (builder: Self)
        ensures
            builder@ == (RequestBuilderView {
                req: RequestView {
                    url: query_replaced(self@.req.url, Some(query@)),
                    ..self@.req
                },
                ..self@
            }),
    {
        let mut builder = self;
        builder.req.set_query(query);
        builder
    }

    /// Push middleware onto a per-request middleware stack.
    ///
    /// Client middleware is run before per-request middleware.
    pub fn middleware(self, middleware: M) -> (builder: Self)
        ensures
            builder@ == (RequestBuilderView {
                req: RequestView {
                    middleware: self@.req.middleware.push(middleware),
                    ..self@.req
                },
                ..self@
            }),
    {
        let mut builder = self;
        builder.req.middleware(middleware);
        builder
    }

    /// Return the constructed `Request`.
    pub fn build(self) -> (req: Request<M>)
        ensures
            req@ == self@.req,
    {
        self.req
    }
}

impl<M> From<RequestBuilder<M>> for Request<M> {
    fn from(builder: RequestBuilder<M>) -> (req: Request<M>)
        ensures
            req@ == builder@.req,
    {
        builder.req
    }
}

impl<M> vstd::std_specs::convert::FromSpecImpl<RequestBuilder<M>> for Request<M> {
    open spec fn obeys_from_spec() -> bool {
        true
    }

    closed spec fn from_spec(builder: RequestBuilder<M>) -> Request<M> {
        builder.req
    }
}

impl<M: Clone> RequestBuilder<M> {
    /// Create a `Client` and send the constructed `Request` from it: with
    /// the client that the builder was given, or else with a new one.
    pub fn send(self) -> (dispatch: Dispatch<M>)
        ensures
            dispatch.req@ == (RequestView { middleware: Seq::empty(), ..self@.req }),
            self@.client is None ==> dispatch.stack@ == self@.req.middleware,
            self@.client matches Some(c) ==> {
                &&& dispatch.stack@.len() == c.middleware.len() + self@.req.middleware.len()
                &&& crate::client::copies(
                    c.middleware,
                    dispatch.stack@.subrange(0, c.middleware.len() as int),
                )
                &&& dispatch.stack@.subrange(
                    c.middleware.len() as int,
                    dispatch.stack@.len() as int,
                ) == self@.req.middleware
                &&& dispatch.client@.config == c.config
            },
    {
        let mut client = match self.client {
            Some(c) => c,
            None => Client::new(),
        };
        client.send(self.req)
    }
}

} // verus!
