//! The client: an ordered stack of middleware over a transport.

use crate::config::Config;
use crate::config::ConfigView;
use crate::error::Error;
use crate::message::Method;
use crate::request::Request;
use crate::request::RequestView;
use crate::request_builder::RequestBuilder;
use crate::url::joined_url;
use crate::url::parsed_url;
use crate::url::Url;
use vstd::pervasive::cloned;
use vstd::prelude::*;

verus! {

/// An HTTP client, capable of sending `Request`s and running a middleware
/// stack.
///
/// Can be optionally set with a base url.
#[derive(Debug)]
pub struct Client<M> {
    config: Config,
    /// Holds the middleware stack, outermost first.
    middleware: Vec<M>,
    /// Whether a request has been sent.
    used: bool,
}

/// What a client is, as mathematics.
pub struct ClientView<M> {
    pub config: ConfigView,
    pub middleware: Seq<M>,
    pub used: bool,
}

impl<M> View for Client<M> {
    type V = ClientView<M>;

    closed spec fn view(&self) -> ClientView<M> {
        ClientView { config: self.config@, middleware: self.middleware@, used: self.used }
    }
}

/// A request that is ready to go through the chain.
#[derive(Debug)]
pub struct Dispatch<M> {
    /// The middleware that the request goes through, outermost first.
    pub stack: Vec<M>,
    /// The request.
    pub req: Request<M>,
    /// The client that the middleware may use to send requests of its own:
    /// the client that sends the request, without its middleware.
    pub client: Client<M>,
}

/// Whether `to` holds a copy of every item of `from`, in the same order.
pub open spec fn copies<M: Clone>(from: Seq<M>, to: Seq<M>) -> bool {
    &&& from.len() == to.len()
    &&& forall|i: int| 0 <= i < from.len() ==> cloned(#[trigger] from[i], to[i])
}

/// The URL that `uri` stands for under the base URL `base`: `uri` resolved
/// against the base where there is one, and `uri` itself where there is
/// none.
pub open spec fn resolved(base: Option<Seq<char>>, uri: Seq<char>) -> Option<Seq<char>> {
    match base {
        Some(b) => joined_url(b, uri),
        None => parsed_url(uri),
    }
}

/// What a client hands back when it is asked to begin a request with the
/// given method for `uri`. A `uri` that cannot be resolved is refused.
/// Otherwise the request is begun with the resolved URL, the headers of the
/// client's configuration, no body, no middleware and no extensions, and
/// with a copy of the client to send it; only the headers can stand in the
/// way of that, and they do not where the configuration has room.
pub open spec fn begun<M: Clone>(
    client: ClientView<M>,
    method: Method,
    uri: Seq<char>,
    res: Result<RequestBuilder<M>, Error>,
) -> bool {
    &&& (resolved(client.config.base_url, uri) is None <==> (res matches Err(Error::Url(_))))
    &&& (res is Err ==> (res matches Err(Error::Url(_)) || res matches Err(Error::Header(_))))
    &&& resolved(client.config.base_url, uri) is Some && crate::headers::has_room(
        client.config.headers,
    ) ==> res is Ok
    &&& resolved(client.config.base_url, uri) is Some && client.config.headers
        == crate::headers::no_entries() ==> res is Ok
    &&& (res matches Ok(builder) ==> {
        &&& resolved(client.config.base_url, uri) is Some
        &&& builder@.req == (RequestView::<M> {
            method,
            url: resolved(client.config.base_url, uri)->Some_0,
            headers: client.config.headers,
            body: Seq::empty(),
            middleware: Seq::empty(),
            ext: Map::empty(),
        })
        &&& builder@.client is Some
        &&& builder@.client->Some_0.config == client.config
        &&& copies(client.middleware, builder@.client->Some_0.middleware)
    })
}

impl<M> Client<M> {
    /// Create a new `Client` instance, without middleware and with the
    /// default configuration.
    pub fn new() -> (client: Self)
        ensures
            client@ == (ClientView::<M> {
                config: crate::config::default_config(),
                middleware: Seq::empty(),
                used: false,
            }),
    {
        Client { config: Config::new(), middleware: Vec::new(), used: false }
    }

    /// Create a new `Client` instance with the given configuration.
    pub fn with_config(config: Config) -> (client: Self)
        ensures
            client@ == (ClientView::<M> { config: config@, middleware: Seq::empty(), used: false }),
    {
        Client { config, middleware: Vec::new(), used: false }
    }

    /// The configuration of this client.
    pub fn config(&self) -> (config: &Config)
        ensures
            config@ == self@.config,
    {
        &self.config
    }

    /// Whether this client has sent a request.
    pub fn is_used(&self) -> (used: bool)
        ensures
            used == self@.used,
    {
        self.used
    }

    /// The number of middleware on the stack.
    pub fn middleware_len(&self) -> (n: usize)
        ensures
            n == self@.middleware.len(),
    {
        self.middleware.len()
    }

    /// Push middleware onto the middleware stack: it comes inside the
    /// middleware that is there already. A client that has sent a request
    /// takes no more middleware.
    pub fn with(self, middleware: M) -> (res: Result<Self, Error>)
        ensures
            self@.used ==> res matches Err(Error::ClientInUse),
            !self@.used ==> (res matches Ok(client) && client@ == (ClientView {
                middleware: self@.middleware.push(middleware),
                ..self@
            })),
    {
        if self.used {
            return Err(Error::ClientInUse);
        }
        let mut client = self;
        client.middleware.push(middleware);
        Ok(client)
    }

    /// Sets the base URL for this client. All request URLs will be relative
    /// to this URL.
    ///
    /// Note: a trailing slash is significant. Without it, the last path
    /// component is considered to be a "file" name to be removed to get at
    /// the "directory" that is used as the base.
    pub fn set_base_url(&mut self, base: Url)
        ensures
            final(self)@ == (ClientView {
                config: ConfigView { base_url: Some(base@), ..old(self)@.config },
                ..old(self)@
            }),
    {
        self.config.base_url = Some(base);
    }

    /// The URL that `uri` stands for with this client: `uri` resolved
    /// against the base URL where there is one, else `uri` itself.
    pub fn url(&self, uri: &str) -> (res: Result<Url, Error>)
        ensures
            match resolved(self@.config.base_url, uri@) {
                Some(text) => res is Ok && res->Ok_0@ == text,
                None => res matches Err(Error::Url(_)),
            },
    {
        match &self.config.base_url {
            None => Url::parse(uri),
            Some(base) => base.join(uri),
        }
    }
}

impl<M: Clone> Client<M> {
    /// A client of its own with a copy of this client's configuration and
    /// middleware, which has not sent a request.
    pub fn duplicate(&self) -> (copy: Self)
        ensures
            copy@.config == self@.config,
            copies(self@.middleware, copy@.middleware),
            !copy@.used,
    {
        Client { config: self.config.duplicate(), middleware: self.middleware.clone(), used: false }
    }

    /// Send a `Request` using this client: puts together the middleware
    /// that the request goes through, which is the middleware of the client
    /// followed by the middleware of the request.
    ///
    /// Client middleware is run before per-request middleware.
    pub fn send(&mut self, req: Request<M>) -> (dispatch: Dispatch<M>)
        ensures
            final(self)@ == (ClientView { used: true, ..old(self)@ }),
            dispatch.stack@.len() == old(self)@.middleware.len() + req@.middleware.len(),
            copies(
                old(self)@.middleware,
                dispatch.stack@.subrange(0, old(self)@.middleware.len() as int),
            ),
            dispatch.stack@.subrange(
                old(self)@.middleware.len() as int,
                dispatch.stack@.len() as int,
            ) == req@.middleware,
            dispatch.req@ == (RequestView { middleware: Seq::empty(), ..req@ }),
            dispatch.client@ == (ClientView::<M> {
                config: old(self)@.config,
                middleware: Seq::empty(),
                used: false,
            }),
    {
        let mut req = req;
        let mut stack = self.middleware.clone();
        let mut own = req.take_middleware();
        stack.append(&mut own);
        self.used = true;
        let client = Client { config: self.config.duplicate(), middleware: Vec::new(), used: false };
        Dispatch { stack, req, client }
    }

    /// Begins a request with the given method for `uri`, which is resolved
    /// against the base URL of this client, with the headers of this
    /// client's configuration.
    pub fn request(&self, method: Method, uri: &str) -> (res: Result<RequestBuilder<M>, Error>)
        ensures
            begun(self@, method, uri@, res),
    {
        let url = match self.url(uri) {
            Ok(url) => url,
            Err(e) => {
                return Err(e);
            },
        };
        proof {
            assert(crate::headers::joined(crate::headers::no_entries(), self@.config.headers)
                =~= self@.config.headers);
        }
        match RequestBuilder::new(method, url).with_client(self.duplicate()) {
            Ok(builder) => Ok(builder),
            Err(e) => Err(Error::Header(e)),
        }
    }

    /// Perform an HTTP `GET` request using the `Client` connection.
    pub fn get(&self, uri: &str) -> (res: Result<RequestBuilder<M>, Error>)
        ensures
            begun(self@, Method::Get, uri@, res),
    {
        self.request(Method::Get, uri)
    }

    /// Perform an HTTP `HEAD` request using the `Client` connection.
    pub fn head(&self, uri: &str) -> (res: Result<RequestBuilder<M>, Error>)
        ensures
            begun(self@, Method::Head, uri@, res),
    {
        self.request(Method::Head, uri)
    }

    /// Perform an HTTP `POST` request using the `Client` connection.
    pub fn post(&self, uri: &str) -> (res: Result<RequestBuilder<M>, Error>)
        ensures
            begun(self@, Method::Post, uri@, res),
    {
        self.request(Method::Post, uri)
    }

    /// Perform an HTTP `PUT` request using the `Client` connection.
    pub fn put(&self, uri: &str) -> (res: Result<RequestBuilder<M>, Error>)
        ensures
            begun(self@, Method::Put, uri@, res),
    {
        self.request(Method::Put, uri)
    }

    /// Perform an HTTP `DELETE` request using the `Client` connection.
    pub fn delete(&self, uri: &str) -> (res: Result<RequestBuilder<M>, Error>)
        ensures
            begun(self@, Method::Delete, uri@, res),
    {
        self.request(Method::Delete, uri)
    }

    /// Perform an HTTP `CONNECT` request using the `Client` connection.
    pub fn connect(&self, uri: &str) -> (res: Result<RequestBuilder<M>, Error>)
        ensures
            begun(self@, Method::Connect, uri@, res),
    {
        self.request(Method::Connect, uri)
    }

    /// Perform an HTTP `OPTIONS` request using the `Client` connection.
    pub fn options(&self, uri: &str) -> (res: Result<RequestBuilder<M>, Error>)
        ensures
            begun(self@, Method::Options, uri@, res),
    {
        self.request(Method::Options, uri)
    }

    /// Perform an HTTP `TRACE` request using the `Client` connection.
    pub fn trace(&self, uri: &str) -> (res: Result<RequestBuilder<M>, Error>)
        ensures
            begun(self@, Method::Trace, uri@, res),
    {
        self.request(Method::Trace, uri)
    }

    /// Perform an HTTP `PATCH` request using the `Client` connection.
    pub fn patch(&self, uri: &str) -> (res: Result<RequestBuilder<M>, Error>)
        ensures
            begun(self@, Method::Patch, uri@, res),
    {
        self.request(Method::Patch, uri)
    }
}

impl<M> Default for Client<M> {
    fn default() -> (client: Self)
        ensures
            client@ == (ClientView::<M> {
                config: crate::config::default_config(),
                middleware: Seq::empty(),
                used: false,
            }),
    {
        Client::new()
    }
}

impl<M: Clone> Clone for Client<M> {
    /// Clones the Client.
    ///
    /// The copy gets a middleware stack of its own, with a copy of every
    /// middleware of this client; middleware that is added to the one is
    /// not added to the other.
    fn clone(&self) -> (copy: Self)
        ensures
            copy@.config == self@.config,
            copies(self@.middleware, copy@.middleware),
            !copy@.used,
    {
        self.duplicate()
    }
}

} // verus!
