//! Configuration of a client and of the transport under it.

use crate::headers::canonical_name;
use crate::headers::valid_name;
use crate::headers::valid_value;
use crate::headers::HeaderEntries;
use crate::headers::HeaderError;
use crate::headers::Headers;
use crate::url::Url;
use vstd::prelude::*;

verus! {

/// Configuration for clients and the transport that they use.
///
/// The pipeline reads the base URL and the headers. The other settings are
/// for the transport, to which they are handed as they are.
#[derive(Debug)]
pub struct Config {
    /// The base URL for a client. All request URLs will be relative to this
    /// URL.
    ///
    /// Note: a trailing slash is significant. Without it, the last path
    /// component is considered to be a "file" name to be removed to get at
    /// the "directory" that is used as the base.
    pub base_url: Option<Url>,
    /// Headers to be applied to every request made by this client.
    pub headers: Headers,
    /// HTTP/1.1 `keep-alive` (connection pooling).
    pub http_keep_alive: bool,
    /// TCP `NO_DELAY`.
    pub tcp_no_delay: bool,
    /// Connection timeout, in seconds.
    pub timeout: Option<u64>,
    /// The maximum number of simultaneous connections to one host.
    pub max_connections_per_host: usize,
}

/// What a configuration is, as mathematics.
pub struct ConfigView {
    pub base_url: Option<Seq<char>>,
    pub headers: HeaderEntries,
    pub http_keep_alive: bool,
    pub tcp_no_delay: bool,
    pub timeout: Option<u64>,
    pub max_connections_per_host: usize,
}

impl View for Config {
    type V = ConfigView;

    open spec fn view(&self) -> ConfigView {
        ConfigView {
            base_url: match self.base_url {
                Some(u) => Some(u@),
                None => None,
            },
            headers: self.headers@,
            http_keep_alive: self.http_keep_alive,
            tcp_no_delay: self.tcp_no_delay,
            timeout: self.timeout,
            max_connections_per_host: self.max_connections_per_host,
        }
    }
}

/// The configuration that `Config::new` gives: no base URL, no headers,
/// `keep-alive`, no `NO_DELAY`, a timeout of a minute, and at most fifty
/// connections to one host.
pub open spec fn default_config() -> ConfigView {
    ConfigView {
        base_url: None,
        headers: crate::headers::no_entries(),
        http_keep_alive: true,
        tcp_no_delay: false,
        timeout: Some(60),
        max_connections_per_host: 50,
    }
}

impl Config {
    /// Construct new empty config.
    pub fn new() -> (config: Self)
        ensures
            config@ == default_config(),
    {
        Config {
            base_url: None,
            headers: Headers::new(),
            http_keep_alive: true,
            tcp_no_delay: false,
            timeout: Some(60),
            max_connections_per_host: 50,
        }
    }

    /// Adds a header to be added to every request by this client.
    ///
    /// Default: No extra headers.
    pub fn add_header(self, name: &str, value: &[u8]) -> (res: Result<Self, HeaderError>)
        ensures
            !valid_name(name@) ==> res matches Err(HeaderError::InvalidName),
            valid_name(name@) && !valid_value(value@) ==> res matches Err(HeaderError::InvalidValue),
            valid_name(name@) && valid_value(value@) ==> (res is Ok || res matches Err(
                HeaderError::TooManyHeaders,
            )),
            valid_name(name@) && valid_value(value@) && crate::headers::has_room(
                self@.headers,
            ) ==> res is Ok,
            res matches Ok(config) ==> config@ == (ConfigView {
                headers: self@.headers.insert(canonical_name(name@), seq![value@]),
                ..self@
            }),
    {
        let mut config = self;
        match config.headers.insert(name, value) {
            Ok(_) => Ok(config),
            Err(e) => Err(e),
        }
    }

    /// Sets the base URL for this client. All request URLs will be relative
    /// to this URL.
    ///
    /// Default: `None`.
    pub fn set_base_url(self, base: Url) -> (config: Self)
        ensures
            config@ == (ConfigView { base_url: Some(base@), ..self@ }),
    {
        let mut config = self;
        config.base_url = Some(base);
        config
    }

    /// Set HTTP/1.1 `keep-alive` (connection pooling).
    ///
    /// Default: `true`.
    pub fn set_http_keep_alive(self, keep_alive: bool) -> (config: Self)
        ensures
            config@ == (ConfigView { http_keep_alive: keep_alive, ..self@ }),
    {
        let mut config = self;
        config.http_keep_alive = keep_alive;
        config
    }

    /// Set TCP `NO_DELAY`.
    ///
    /// Default: `false`.
    pub fn set_tcp_no_delay(self, no_delay: bool) -> (config: Self)
        ensures
            config@ == (ConfigView { tcp_no_delay: no_delay, ..self@ }),
    {
        let mut config = self;
        config.tcp_no_delay = no_delay;
        config
    }

    /// Set connection timeout duration, in seconds.
    ///
    /// Passing `None` will remove the timeout.
    ///
    /// Default: `Some(60)`.
    pub fn set_timeout(self, timeout: Option<u64>) -> (config: Self)
        ensures
            config@ == (ConfigView { timeout, ..self@ }),
    {
        let mut config = self;
        config.timeout = timeout;
        config
    }

    /// Set the maximum number of simultaneous connections that this client
    /// is allowed to keep open to individual hosts at one time.
    ///
    /// Default: `50`.
    pub fn set_max_connections_per_host(self, max_connections_per_host: usize) -> (config: Self)
        ensures
            config@ == (ConfigView { max_connections_per_host, ..self@ }),
    {
        let mut config = self;
        config.max_connections_per_host = max_connections_per_host;
        config
    }

    /// A copy of this configuration.
    pub fn duplicate(&self) -> (copy: Self)
        ensures
            copy@ == self@,
    {
        Config {
            base_url: match &self.base_url {
                Some(u) => Some(u.duplicate()),
                None => None,
            },
            headers: self.headers.duplicate(),
            http_keep_alive: self.http_keep_alive,
            tcp_no_delay: self.tcp_no_delay,
            timeout: self.timeout,
            max_connections_per_host: self.max_connections_per_host,
        }
    }
}

impl Clone for Config {
    fn clone(&self) -> (copy: Self)
        ensures
            copy@ == self@,
    {
        self.duplicate()
    }
}

impl Default for Config {
    fn default() -> (config: Self)
        ensures
            config@ == default_config(),
    {
        Config::new()
    }
}

} // verus!
