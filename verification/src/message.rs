//! The small value types of HTTP messages: method, status code, protocol
//! version and body.

use vstd::prelude::*;

verus! {

/// The standard request methods.
#[derive(Clone, Copy, Debug, PartialEq, Eq, Structural)]
pub enum Method {
    Get,
    Head,
    Post,
    Put,
    Delete,
    Connect,
    Options,
    Trace,
    Patch,
}

impl Method {
    /// The method's name as it stands in a request line.
    pub fn as_str(&self) -> (name: &'static str)
        ensures
            name@ == self.name(),
    {
        match self {
            Method::Get => "GET",
            Method::Head => "HEAD",
            Method::Post => "POST",
            Method::Put => "PUT",
            Method::Delete => "DELETE",
            Method::Connect => "CONNECT",
            Method::Options => "OPTIONS",
            Method::Trace => "TRACE",
            Method::Patch => "PATCH",
        }
    }

    /// The method's name, as a sequence of characters.
    pub open spec fn name(&self) -> Seq<char> {
        match *self {
            Method::Get => "GET"@,
            Method::Head => "HEAD"@,
            Method::Post => "POST"@,
            Method::Put => "PUT"@,
            Method::Delete => "DELETE"@,
            Method::Connect => "CONNECT"@,
            Method::Options => "OPTIONS"@,
            Method::Trace => "TRACE"@,
            Method::Patch => "PATCH"@,
        }
    }

    /// Whether a response to this method may be kept by a cache: `GET` and
    /// `HEAD` only.
    pub open spec fn cacheable(&self) -> bool {
        *self == Method::Get || *self == Method::Head
    }

    /// Whether a response to this method may be kept by a cache.
    pub fn is_cacheable(&self) -> (yes: bool)
        ensures
            yes == self.cacheable(),
    {
        match self {
            Method::Get => true,
            Method::Head => true,
            _ => false,
        }
    }
}

/// A response status code.
#[derive(Clone, Copy, Debug, PartialEq, Eq, Structural)]
pub struct StatusCode {
    pub code: u16,
}

impl StatusCode {
    /// The status with the given number.
    pub fn new(code: u16) -> (status: Self)
        ensures
            status.code == code,
    {
        StatusCode { code }
    }

    /// The number of this status.
    pub fn as_u16(&self) -> (code: u16)
        ensures
            code == self.code,
    {
        self.code
    }

    /// 2xx.
    pub open spec fn success(&self) -> bool {
        200 <= self.code < 300
    }

    /// One of the five codes that ask the client to go elsewhere:
    /// 301, 302, 303, 307 and 308.
    pub open spec fn redirect(&self) -> bool {
        self.code == 301 || self.code == 302 || self.code == 303 || self.code == 307 || self.code
            == 308
    }

    /// 4xx.
    pub open spec fn client_error(&self) -> bool {
        400 <= self.code < 500
    }

    /// 5xx.
    pub open spec fn server_error(&self) -> bool {
        500 <= self.code < 600
    }

    /// Whether the code is 2xx.
    pub fn is_success(&self) -> (yes: bool)
        ensures
            yes == self.success(),
    {
        200 <= self.code && self.code < 300
    }

    /// Whether the code is one that the redirect middleware follows.
    pub fn is_redirect(&self) -> (yes: bool)
        ensures
            yes == self.redirect(),
    {
        self.code == 301 || self.code == 302 || self.code == 303 || self.code == 307 || self.code
            == 308
    }

    /// Whether the code is 4xx.
    pub fn is_client_error(&self) -> (yes: bool)
        ensures
            yes == self.client_error(),
    {
        400 <= self.code && self.code < 500
    }

    /// Whether the code is 5xx.
    pub fn is_server_error(&self) -> (yes: bool)
        ensures
            yes == self.server_error(),
    {
        500 <= self.code && self.code < 600
    }
}

/// The protocol version of a response.
#[derive(Clone, Copy, Debug, PartialEq, Eq, Structural)]
pub enum Version {
    Http0_9,
    Http1_0,
    Http1_1,
    Http2_0,
    Http3_0,
}

/// A message body, held in memory.
///
/// A body can be read once: taking it leaves an empty body behind.
#[derive(Debug)]
pub struct Body {
    bytes: Vec<u8>,
}

impl View for Body {
    type V = Seq<u8>;

    closed spec fn view(&self) -> Seq<u8> {
        self.bytes@
    }
}

impl Body {
    /// A body without content.
    pub fn empty() -> (body: Self)
        ensures
            body@ == Seq::<u8>::empty(),
    {
        Body { bytes: Vec::new() }
    }

    /// A body with the given content.
    pub fn from_bytes(bytes: Vec<u8>) -> (body: Self)
        ensures
            body@ == bytes@,
    {
        Body { bytes }
    }

    /// A body whose content is the UTF-8 form of `text`.
    pub fn from_string(text: String) -> (body: Self)
        ensures
            body@ == vstd::utf8::encode_utf8(text@),
    {
        Body { bytes: text.as_str().as_bytes_vec() }
    }

    /// The number of bytes.
    pub fn len(&self) -> (n: usize)
        ensures
            n == self@.len(),
    {
        self.bytes.len()
    }

    /// Whether there are no bytes.
    pub fn is_empty(&self) -> (yes: bool)
        ensures
            yes == (self@.len() == 0),
    {
        self.bytes.len() == 0
    }

    /// The content, without taking it.
    pub fn as_bytes(&self) -> (bytes: &Vec<u8>)
        ensures
            bytes@ == self@,
    {
        &self.bytes
    }

    /// The content.
    pub fn into_bytes(self) -> (bytes: Vec<u8>)
        ensures
            bytes@ == self@,
    {
        self.bytes
    }

    /// Takes the content out and leaves the body empty.
    pub fn take(&mut self) -> (taken: Body)
        ensures
            taken@ == old(self)@,
            final(self)@ == Seq::<u8>::empty(),
    {
        let mut bytes: Vec<u8> = Vec::new();
        std::mem::swap(&mut bytes, &mut self.bytes);
        Body { bytes }
    }

    /// A copy of this body.
    pub fn duplicate(&self) -> (copy: Body)
        ensures
            copy@ == self@,
    {
        Body { bytes: self.bytes.clone() }
    }
}

impl From<Vec<u8>> for Body {
    fn from(bytes: Vec<u8>) -> (body: Body)
        ensures
            body@ == bytes@,
    {
        Body { bytes }
    }
}

impl vstd::std_specs::convert::FromSpecImpl<Vec<u8>> for Body {
    open spec fn obeys_from_spec() -> bool {
        true
    }

    closed spec fn from_spec(bytes: Vec<u8>) -> Body {
        Body { bytes }
    }
}

impl Clone for Body {
    fn clone(&self) -> (copy: Self)
        ensures
            copy@ == self@,
    {
        self.duplicate()
    }
}

} // verus!
