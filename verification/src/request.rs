//! HTTP requests.

use crate::extensions::ExtensionEntries;
use crate::extensions::Extensions;
use crate::headers::canonical_name;
use crate::headers::has_name;
use crate::headers::valid_name;
use crate::headers::valid_value;
use crate::headers::values_of;
use crate::headers::HeaderEntries;
use crate::headers::HeaderError;
use crate::headers::Headers;
use crate::message::Body;
use crate::message::Method;
use crate::url::Url;
use vstd::prelude::*;

verus! {

/// What a request is, as mathematics.
pub struct RequestView<M> {
    pub method: Method,
    pub url: Seq<char>,
    pub headers: HeaderEntries,
    pub body: Seq<u8>,
    pub middleware: Seq<M>,
    pub ext: ExtensionEntries,
}

impl<M> RequestView<M> {
    /// The request for another attempt: with the same method, target and
    /// headers, and with nothing else.
    pub open spec fn bare(self) -> RequestView<M> {
        RequestView { body: Seq::empty(), middleware: Seq::empty(), ext: Map::empty(), ..self }
    }
}

/// An HTTP request: method, target, headers, body, and the middleware that
/// accompanies this one request.
#[derive(Debug)]
pub struct Request<M> {
    method: Method,
    url: Url,
    headers: Headers,
    body: Body,
    middleware: Vec<M>,
    ext: Extensions,
}

impl<M> View for Request<M> {
    type V = RequestView<M>;

    closed spec fn view(&self) -> RequestView<M> {
        RequestView {
            method: self.method,
            url: self.url@,
            headers: self.headers@,
            body: self.body@,
            middleware: self.middleware@,
            ext: self.ext@,
        }
    }
}

impl<M> Request<M> {
    /// A request without headers, body or middleware.
    pub fn new(method: Method, url: Url) -> (req: Self)
        ensures
            req@ == (RequestView::<M> {
                method,
                url: url@,
                headers: crate::headers::no_entries(),
                body: Seq::empty(),
                middleware: Seq::empty(),
                ext: Map::empty(),
            }),
    {
        Request {
            method,
            url,
            headers: Headers::new(),
            body: Body::empty(),
            middleware: Vec::new(),
            ext: Extensions::new(),
        }
    }

    /// The request method.
    pub fn method(&self) -> (method: Method)
        ensures
            method == self@.method,
    {
        self.method
    }

    /// The request target.
    pub fn url(&self) -> (url: &Url)
        ensures
            url@ == self@.url,
    {
        &self.url
    }

    /// Replaces the request target.
    pub fn set_url(&mut self, url: Url)
        ensures
            final(self)@ == (RequestView { url: url@, ..old(self)@ }),
    {
        self.url = url;
    }

    /// The headers.
    pub fn headers(&self) -> (headers: &Headers)
        ensures
            headers@ == self@.headers,
    {
        &self.headers
    }

    /// The first value of the header `name`.
    pub fn header(&self, name: &str) -> (value: Option<Vec<u8>>)
        ensures
            value is Some <==> has_name(self@.headers, name@),
            value matches Some(v) ==> self@.headers[canonical_name(name@)].len() > 0 && v@
                == self@.headers[canonical_name(name@)][0],
    {
        self.headers.get(name)
    }

    /// Sets the header `name` to the single value `value`.
    pub fn insert_header(&mut self, name: &str, value: &[u8]) -> (previous: Result<Option<Vec<u8>>, HeaderError>)
        ensures
            !valid_name(name@) ==> previous matches Err(HeaderError::InvalidName),
            valid_name(name@) && !valid_value(value@) ==> previous matches Err(
                HeaderError::InvalidValue,
            ),
            valid_name(name@) && valid_value(value@) ==> (previous is Ok || previous matches Err(
                HeaderError::TooManyHeaders,
            )),
            valid_name(name@) && valid_value(value@) && crate::headers::has_room(
                old(self)@.headers,
            ) ==> previous is Ok,
            previous is Err ==> final(self)@ == old(self)@,
            previous matches Ok(p) ==> {
                &&& final(self)@ == (RequestView {
                    headers: old(self)@.headers.insert(canonical_name(name@), seq![value@]),
                    ..old(self)@
                })
                &&& p is Some <==> has_name(old(self)@.headers, name@)
                &&& p matches Some(v) ==> old(self)@.headers[canonical_name(name@)].len() > 0
                    && v@ == old(self)@.headers[canonical_name(name@)][0]
            },
    {
        self.headers.insert(name, value)
    }

    /// Sets the header `name` to the single value `value`.
    pub fn set_header(&mut self, name: &str, value: &[u8]) -> (outcome: Result<(), HeaderError>)
        ensures
            !valid_name(name@) ==> outcome matches Err(HeaderError::InvalidName),
            valid_name(name@) && !valid_value(value@) ==> outcome matches Err(
                HeaderError::InvalidValue,
            ),
            valid_name(name@) && valid_value(value@) ==> (outcome is Ok || outcome matches Err(
                HeaderError::TooManyHeaders,
            )),
            valid_name(name@) && valid_value(value@) && crate::headers::has_room(
                old(self)@.headers,
            ) ==> outcome is Ok,
            outcome is Err ==> final(self)@ == old(self)@,
            outcome is Ok ==> final(self)@ == (RequestView {
                headers: old(self)@.headers.insert(canonical_name(name@), seq![value@]),
                ..old(self)@
            }),
    {
        match self.headers.insert(name, value) {
            Ok(_) => Ok(()),
            Err(e) => Err(e),
        }
    }

    /// Adds `value` to the values of the header `name`.
    pub fn append_header(&mut self, name: &str, value: &[u8]) -> (outcome: Result<(), HeaderError>)
        ensures
            !valid_name(name@) ==> outcome matches Err(HeaderError::InvalidName),
            valid_name(name@) && !valid_value(value@) ==> outcome matches Err(
                HeaderError::InvalidValue,
            ),
            valid_name(name@) && valid_value(value@) ==> (outcome is Ok || outcome matches Err(
                HeaderError::TooManyHeaders,
            )),
            valid_name(name@) && valid_value(value@) && crate::headers::has_room(
                old(self)@.headers,
            ) ==> outcome is Ok,
            outcome is Err ==> final(self)@ == old(self)@,
            outcome is Ok ==> final(self)@ == (RequestView {
                headers: old(self)@.headers.insert(
                    canonical_name(name@),
                    values_of(old(self)@.headers, name@).push(value@),
                ),
                ..old(self)@
            }),
    {
        self.headers.append(name, value)
    }

    /// Removes the header `name`, and hands back its first value.
    pub fn remove_header(&mut self, name: &str) -> (removed: Option<Vec<u8>>)
        ensures
            removed is Some <==> has_name(old(self)@.headers, name@),
            removed matches Some(v) ==> old(self)@.headers[canonical_name(name@)].len() > 0 && v@
                == old(self)@.headers[canonical_name(name@)][0],
            has_name(old(self)@.headers, name@) ==> final(self)@ == (RequestView {
                headers: old(self)@.headers.remove(canonical_name(name@)),
                ..old(self)@
            }),
            !has_name(old(self)@.headers, name@) ==> final(self)@ == old(self)@,
    {
        self.headers.remove(name)
    }

    /// Adds the values of every header that `extra` holds after the values
    /// that the request has for it. Where the headers cannot be written,
    /// the request is left as it was.
    pub fn extend_headers(&mut self, extra: &Headers) -> (outcome: Result<(), HeaderError>)
        ensures
            outcome is Ok ==> final(self)@ == (RequestView {
                headers: crate::headers::joined(old(self)@.headers, extra@),
                ..old(self)@
            }),
            outcome is Err ==> final(self)@ == old(self)@,
            extra@ == crate::headers::no_entries() ==> outcome is Ok,
            crate::headers::room_for(old(self)@.headers, extra@.dom().len()) ==> outcome is Ok,
            outcome is Ok && old(self)@.headers.dom().finite() ==> final(self)@.headers.dom().finite()
                && final(self)@.headers.dom().len() <= old(self)@.headers.dom().len()
                + extra@.dom().len(),
    {
        self.headers.extend(extra)
    }

    /// The query string of the request target.
    pub fn query(&self) -> (query: Option<String>)
        ensures
            query is Some <==> crate::url::query_of(self@.url) is Some,
            query matches Some(q) ==> crate::url::query_of(self@.url) == Some(q@),
    {
        self.url.query()
    }

    /// Sets the query string of the request target, given in its encoded
    /// form. A query that would make the URL too long is not set.
    pub fn set_query(&mut self, query: &str)
        ensures
            final(self)@ == (RequestView {
                url: crate::url::query_replaced(old(self)@.url, Some(query@)),
                ..old(self)@
            }),
    {
        self.url.set_query(Some(query));
    }

    /// Every header as a pair of its name and one value.
    pub fn iter(&self) -> (pairs: Vec<(String, Vec<u8>)>)
        ensures
            crate::headers::entries_of(crate::headers::pair_views(pairs@)) == self@.headers,
    {
        self.headers.iter()
    }

    /// The media type of the body, from the `Content-Type` header.
    pub fn content_type(&self) -> (mime: Option<crate::response::Mime>)
        ensures
            mime is Some <==> crate::response::content_type_of(self@.headers) is Some,
            mime matches Some(m) ==> crate::response::content_type_of(self@.headers) == Some(m@),
    {
        proof {
            crate::response::lemma_content_type_name();
        }
        match self.headers.get("content-type") {
            None => None,
            Some(value) => match crate::text::text_of(value.as_slice()) {
                None => None,
                Some(text) => crate::response::Mime::parse(text.as_str()),
            },
        }
    }

    /// Sets the `Content-Type` header to the given media type, in place of
    /// any value that the header had. A media type whose text cannot stand
    /// in a header is refused.
    pub fn set_content_type(&mut self, mime: &crate::response::Mime) -> (outcome: Result<(), HeaderError>)
        ensures
            !valid_value(vstd::utf8::encode_utf8(mime.source@)) ==> outcome matches Err(
                HeaderError::InvalidValue,
            ),
            valid_value(vstd::utf8::encode_utf8(mime.source@)) ==> (outcome is Ok
                || outcome matches Err(HeaderError::TooManyHeaders)),
            valid_value(vstd::utf8::encode_utf8(mime.source@)) && crate::headers::has_room(
                old(self)@.headers,
            ) ==> outcome is Ok,
            outcome is Err ==> final(self)@ == old(self)@,
            outcome is Ok ==> final(self)@ == (RequestView {
                headers: old(self)@.headers.insert(
                    "content-type"@,
                    seq![vstd::utf8::encode_utf8(mime.source@)],
                ),
                ..old(self)@
            }),
    {
        proof {
            crate::response::lemma_content_type_name();
        }
        self.set_header("content-type", mime.source.as_str().as_bytes())
    }

    /// The names of the headers, each once.
    pub fn header_names(&self) -> (names: Vec<String>)
        ensures
            forall|i: int|
                0 <= i < names.len() ==> self@.headers.contains_key(#[trigger] names[i]@)
                    && valid_name(names[i]@) && canonical_name(names[i]@) == names[i]@,
            forall|n: Seq<char>| #[trigger]
                self@.headers.contains_key(n) ==> exists|i: int|
                    0 <= i < names.len() && names[i]@ == n,
            forall|i: int, j: int|
                0 <= i < j < names.len() ==> (#[trigger] names[i])@ != (#[trigger] names[j])@,
    {
        self.headers.names()
    }

    /// The length of the body.
    pub fn len(&self) -> (n: Option<usize>)
        ensures
            n == Some(self@.body.len() as usize),
    {
        Some(self.body.len())
    }

    /// Whether the body is empty.
    pub fn is_empty(&self) -> (yes: Option<bool>)
        ensures
            yes == Some(self@.body.len() == 0),
    {
        Some(self.body.is_empty())
    }

    /// Replaces the body.
    pub fn set_body(&mut self, body: Body)
        ensures
            final(self)@ == (RequestView { body: body@, ..old(self)@ }),
    {
        self.body = body;
    }

    /// Takes the body; the request keeps an empty one.
    pub fn take_body(&mut self) -> (body: Body)
        ensures
            body@ == old(self)@.body,
            final(self)@ == (RequestView { body: Seq::empty(), ..old(self)@ }),
    {
        self.body.take()
    }

    /// Makes `text`, in UTF-8, the body.
    pub fn body_string(&mut self, text: String)
        ensures
            final(self)@ == (RequestView { body: vstd::utf8::encode_utf8(text@), ..old(self)@ }),
    {
        self.body = Body::from_string(text);
    }

    /// Makes `bytes` the body.
    pub fn body_bytes(&mut self, bytes: Vec<u8>)
        ensures
            final(self)@ == (RequestView { body: bytes@, ..old(self)@ }),
    {
        self.body = Body::from_bytes(bytes);
    }

    /// Adds middleware that runs for this request only, inside the
    /// middleware of the client that sends it.
    pub fn middleware(&mut self, middleware: M)
        ensures
            final(self)@ == (RequestView {
                middleware: old(self)@.middleware.push(middleware),
                ..old(self)@
            }),
    {
        self.middleware.push(middleware);
    }

    /// Takes the middleware of this request; the request keeps none.
    pub fn take_middleware(&mut self) -> (taken: Vec<M>)
        ensures
            taken@ == old(self)@.middleware,
            final(self)@ == (RequestView { middleware: Seq::empty(), ..old(self)@ }),
    {
        let mut taken: Vec<M> = Vec::new();
        std::mem::swap(&mut taken, &mut self.middleware);
        taken
    }

    /// The extension value under `key`.
    pub fn ext(&self, key: &str) -> (value: Option<Vec<u8>>)
        ensures
            value is Some <==> self@.ext.contains_key(key@),
            value matches Some(v) ==> v@ == self@.ext[key@],
    {
        self.ext.get(key)
    }

    /// Sets the extension value under `key`, and hands back the value that
    /// was there.
    pub fn set_ext(&mut self, key: &str, value: Vec<u8>) -> (previous: Option<Vec<u8>>)
        ensures
            final(self)@ == (RequestView {
                ext: old(self)@.ext.insert(key@, value@),
                ..old(self)@
            }),
            previous is Some <==> old(self)@.ext.contains_key(key@),
            previous matches Some(v) ==> v@ == old(self)@.ext[key@],
    {
        self.ext.insert(key, value)
    }

    /// A copy of this request for another attempt: same method, target and
    /// headers, but without the body, without middleware and without
    /// extensions.
    pub fn probe(&self) -> (copy: Request<M>)
        ensures
            copy@ == self@.bare(),
    {
        Request {
            method: self.method,
            url: self.url.duplicate(),
            headers: self.headers.duplicate(),
            body: Body::empty(),
            middleware: Vec::new(),
            ext: Extensions::new(),
        }
    }
}

} // verus!
