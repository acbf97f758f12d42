//! HTTP responses, and the decoding of a response body into text.

use crate::extensions::ExtensionEntries;
use crate::extensions::Extensions;
use crate::headers::canonical_name;
use crate::headers::has_name;
use crate::headers::valid_name;
use crate::headers::valid_value;
use crate::headers::values_of;
use crate::headers::HeaderEntries;
use crate::headers::HeaderError;
use crate::headers::Headers;
use crate::message::Body;
use crate::message::StatusCode;
use crate::message::Version;
use crate::text::text_of;
use vstd::prelude::*;
use vstd::utf8::decode_utf8;
use vstd::utf8::valid_utf8;

verus! {

/// What a response is, as mathematics.
pub struct ResponseView {
    pub status: StatusCode,
    pub version: Version,
    pub headers: HeaderEntries,
    pub body: Seq<u8>,
    pub ext: ExtensionEntries,
}

/// An HTTP response: status, protocol version, headers, body and
/// extensions.
#[derive(Debug)]
pub struct Response {
    status: StatusCode,
    version: Version,
    headers: Headers,
    body: Body,
    ext: Extensions,
}

impl View for Response {
    type V = ResponseView;

    closed spec fn view(&self) -> ResponseView {
        ResponseView {
            status: self.status,
            version: self.version,
            headers: self.headers@,
            body: self.body@,
            ext: self.ext@,
        }
    }
}

/// A media type, as it stands in a `Content-Type` header.
#[derive(Debug)]
pub struct Mime {
    /// The media type in the form in which the parser keeps it.
    pub source: String,
    /// The value of its `charset` parameter.
    pub charset: Option<String>,
}

/// What a media type is, as mathematics: its text and its `charset`.
pub struct MimeView {
    pub source: Seq<char>,
    pub charset: Option<Seq<char>>,
}

impl View for Mime {
    type V = MimeView;

    open spec fn view(&self) -> MimeView {
        MimeView {
            source: self.source@,
            charset: match self.charset {
                Some(c) => Some(c@),
                None => None,
            },
        }
    }
}

/// The media type that `text` parses to, if it is one.
pub uninterp spec fn parsed_media_type(text: Seq<char>) -> Option<MimeView>;

/// The media type that the first `Content-Type` value of `headers` holds.
pub open spec fn content_type_of(headers: HeaderEntries) -> Option<MimeView> {
    if has_name(headers, "content-type"@) && headers["content-type"@].len() > 0 && valid_utf8(
        headers["content-type"@][0],
    ) {
        parsed_media_type(decode_utf8(headers["content-type"@][0]))
    } else {
        None
    }
}

/// A body that could not be read as text.
#[derive(Debug)]
pub struct DecodeError {
    /// The name of the character encoding that was tried.
    pub encoding: String,
    /// The body as it is.
    pub data: Vec<u8>,
}

impl DecodeError {
    /// The message of this error.
    pub fn message(&self) -> (text: String)
        ensures
            text@ == "could not decode body as "@ + self.encoding@,
    {
        String::from_str("could not decode body as ").concat(self.encoding.as_str())
    }
}

/// What the decoder makes of `bytes` under the character encoding that
/// `label` names: nothing if the label names none; else the text, the name
/// of the encoding that was used, whether any byte sequence was malformed,
/// and whether the decoder lent the text from the bytes in place of writing
/// it anew.
pub uninterp spec fn charset_decoded(label: Seq<char>, bytes: Seq<u8>) -> Option<
    (Seq<char>, Seq<char>, bool, bool),
>;

/// The largest body that can be decoded into text.
pub open spec fn max_text_len() -> int {
    (usize::MAX / 4) as int
}

/// What `decode_body` returns, for what the decoder made of the bytes.
/// Where the decoder lent the text from the bytes, the bytes are the text
/// as they are, with a byte order mark if they start with one; the text
/// that the decoder wrote anew has none.
pub open spec fn decode_outcome(
    label: Seq<char>,
    bytes: Seq<u8>,
    decoded: Option<(Seq<char>, Seq<char>, bool, bool)>,
) -> Result<Seq<char>, (Seq<char>, Seq<u8>)> {
    match decoded {
        None => Err((label, bytes)),
        Some((text, used, malformed, lent)) => if malformed {
            Err((used, bytes))
        } else if lent && valid_utf8(bytes) {
            Ok(decode_utf8(bytes))
        } else {
            Ok(text)
        },
    }
}

/// The label under which a body is decoded when its media type names
/// `charset`: that name, or `utf-8` without one.
pub open spec fn label_for(charset: Option<Seq<char>>) -> Seq<char> {
    match charset {
        Some(c) => c,
        None => "utf-8"@,
    }
}

/// What reading `bytes` as text gives under the label `label`: the text, or
/// the encoding that failed together with the bytes. Bodies longer than
/// `max_text_len()` are not decoded.
pub open spec fn decoded_text(label: Seq<char>, bytes: Seq<u8>) -> Result<
    Seq<char>,
    (Seq<char>, Seq<u8>),
> {
    if bytes.len() > max_text_len() {
        Err((label, bytes))
    } else {
        decode_outcome(label, bytes, charset_decoded(label, bytes))
    }
}

/// Tells what to return for what the decoder made of `bytes`: the text if
/// the label was known and nothing was malformed, else an error that names
/// the encoding and holds the bytes.
pub fn finish_decoding(
    label: &str,
    bytes: Vec<u8>,
    decoded: Option<(String, String, bool, bool)>,
) -> (res: Result<String, DecodeError>)
    ensures
        match decode_outcome(
            label@,
            bytes@,
            match decoded {
                Some(d) => Some((d.0@, d.1@, d.2, d.3)),
                None => None,
            },
        ) {
            Ok(text) => res is Ok && res->Ok_0@ == text,
            Err(e) => res is Err && res->Err_0.encoding@ == e.0 && res->Err_0.data@ == e.1,
        },
{
    match decoded {
        None => Err(DecodeError { encoding: String::from_str(label), data: bytes }),
        Some((text, used, malformed, lent)) => {
            if malformed {
                Err(DecodeError { encoding: used, data: bytes })
            } else if lent {
                match text_of(bytes.as_slice()) {
                    Some(whole) => Ok(whole),
                    None => Ok(text),
                }
            } else {
                Ok(text)
            }
        },
    }
}

/// Reads `bytes` as text in the character encoding that `content_encoding`
/// names, or as UTF-8 where it names none.
pub fn decode_body(bytes: Vec<u8>, content_encoding: Option<&str>) -> (res: Result<String, DecodeError>)
    ensures
        match decoded_text(
            label_for(
                match content_encoding {
                    Some(c) => Some(c@),
                    None => None,
                },
            ),
            bytes@,
        ) {
            Ok(text) => res is Ok && res->Ok_0@ == text,
            Err(e) => res is Err && res->Err_0.encoding@ == e.0 && res->Err_0.data@ == e.1,
        },
{
    let label: &str = match content_encoding {
        Some(c) => c,
        None => "utf-8",
    };
    if bytes.len() > usize::MAX / 4 {
        return Err(DecodeError { encoding: String::from_str(label), data: bytes });
    }
    let decoded = decode_with_label(label, bytes.as_slice());
    finish_decoding(label, bytes, decoded)
}

impl Mime {
    /// Parses a media type.
    pub fn parse(text: &str) -> (mime: Option<Mime>)
        ensures
            mime is Some <==> parsed_media_type(text@) is Some,
            mime matches Some(m) ==> parsed_media_type(text@) == Some(m@),
    {
        match parse_media_type(text) {
            Some((source, charset)) => Some(Mime { source, charset }),
            None => None,
        }
    }
}

impl Response {
    /// A response without headers or body.
    pub fn new(status: StatusCode) -> (res: Self)
        ensures
            res@ == (ResponseView {
                status,
                version: Version::Http1_1,
                headers: crate::headers::no_entries(),
                body: Seq::empty(),
                ext: Map::empty(),
            }),
    {
        Response {
            status,
            version: Version::Http1_1,
            headers: Headers::new(),
            body: Body::empty(),
            ext: Extensions::new(),
        }
    }

    /// The extension value under `key`.
    pub fn ext(&self, key: &str) -> (value: Option<Vec<u8>>)
        ensures
            value is Some <==> self@.ext.contains_key(key@),
            value matches Some(v) ==> v@ == self@.ext[key@],
    {
        self.ext.get(key)
    }

    /// Sets the extension value under `key`, and hands back the value that
    /// was there.
    pub fn insert_ext(&mut self, key: &str, value: Vec<u8>) -> (previous: Option<Vec<u8>>)
        ensures
            final(self)@ == (ResponseView {
                ext: old(self)@.ext.insert(key@, value@),
                ..old(self)@
            }),
            previous is Some <==> old(self)@.ext.contains_key(key@),
            previous matches Some(v) ==> v@ == old(self)@.ext[key@],
    {
        self.ext.insert(key, value)
    }

    /// The status code.
    pub fn status(&self) -> (status: StatusCode)
        ensures
            status == self@.status,
    {
        self.status
    }

    /// Replaces the status code.
    pub fn set_status(&mut self, status: StatusCode)
        ensures
            final(self)@ == (ResponseView { status, ..old(self)@ }),
    {
        self.status = status;
    }

    /// The protocol version.
    pub fn version(&self) -> (version: Version)
        ensures
            version == self@.version,
    {
        self.version
    }

    /// Replaces the protocol version.
    pub fn set_version(&mut self, version: Version)
        ensures
            final(self)@ == (ResponseView { version, ..old(self)@ }),
    {
        self.version = version;
    }

    /// The first value of the header `name`.
    pub fn header(&self, name: &str) -> (value: Option<Vec<u8>>)
        ensures
            value is Some <==> has_name(self@.headers, name@),
            value matches Some(v) ==> self@.headers[canonical_name(name@)].len() > 0 && v@
                == self@.headers[canonical_name(name@)][0],
    {
        self.headers.get(name)
    }

    /// The headers.
    pub fn headers(&self) -> (headers: &Headers)
        ensures
            headers@ == self@.headers,
    {
        &self.headers
    }

    /// Sets the header `name` to the single value `value`.
    pub fn insert_header(&mut self, name: &str, value: &[u8]) -> (outcome: Result<(), HeaderError>)
        ensures
            !valid_name(name@) ==> outcome matches Err(HeaderError::InvalidName),
            valid_name(name@) && !valid_value(value@) ==> outcome matches Err(
                HeaderError::InvalidValue,
            ),
            valid_name(name@) && valid_value(value@) ==> (outcome is Ok || outcome matches Err(
                HeaderError::TooManyHeaders,
            )),
            valid_name(name@) && valid_value(value@) && crate::headers::has_room(
                old(self)@.headers,
            ) ==> outcome is Ok,
            outcome is Err ==> final(self)@ == old(self)@,
            outcome is Ok ==> final(self)@ == (ResponseView {
                headers: old(self)@.headers.insert(canonical_name(name@), seq![value@]),
                ..old(self)@
            }),
    {
        match self.headers.insert(name, value) {
            Ok(_) => Ok(()),
            Err(e) => Err(e),
        }
    }

    /// Adds `value` to the values of the header `name`.
    pub fn append_header(&mut self, name: &str, value: &[u8]) -> (outcome: Result<(), HeaderError>)
        ensures
            !valid_name(name@) ==> outcome matches Err(HeaderError::InvalidName),
            valid_name(name@) && !valid_value(value@) ==> outcome matches Err(
                HeaderError::InvalidValue,
            ),
            valid_name(name@) && valid_value(value@) ==> (outcome is Ok || outcome matches Err(
                HeaderError::TooManyHeaders,
            )),
            valid_name(name@) && valid_value(value@) && crate::headers::has_room(
                old(self)@.headers,
            ) ==> outcome is Ok,
            outcome is Err ==> final(self)@ == old(self)@,
            outcome is Ok ==> final(self)@ == (ResponseView {
                headers: old(self)@.headers.insert(
                    canonical_name(name@),
                    values_of(old(self)@.headers, name@).push(value@),
                ),
                ..old(self)@
            }),
    {
        self.headers.append(name, value)
    }

    /// Removes the header `name`, and hands back its first value.
    pub fn remove_header(&mut self, name: &str) -> (removed: Option<Vec<u8>>)
        ensures
            removed is Some <==> has_name(old(self)@.headers, name@),
            removed matches Some(v) ==> old(self)@.headers[canonical_name(name@)].len() > 0 && v@
                == old(self)@.headers[canonical_name(name@)][0],
            has_name(old(self)@.headers, name@) ==> final(self)@ == (ResponseView {
                headers: old(self)@.headers.remove(canonical_name(name@)),
                ..old(self)@
            }),
            !has_name(old(self)@.headers, name@) ==> final(self)@ == old(self)@,
    {
        self.headers.remove(name)
    }

    /// A copy of this response without the body.
    pub fn clone_without_body(&self) -> (copy: Response)
        ensures
            copy@ == (ResponseView { body: Seq::empty(), ..self@ }),
    {
        Response {
            status: self.status,
            version: self.version,
            headers: self.headers.duplicate(),
            body: Body::empty(),
            ext: self.ext.duplicate(),
        }
    }

    /// Replaces the values of every header that `update` holds by the
    /// values that `update` has for it. Where the headers cannot be
    /// written, the response is left as it was.
    pub fn update_headers(&mut self, update: &Headers) -> (outcome: Result<(), HeaderError>)
        ensures
            outcome is Ok ==> final(self)@ == (ResponseView {
                headers: old(self)@.headers.union_prefer_right(update@),
                ..old(self)@
            }),
            outcome is Err ==> final(self)@ == old(self)@,
            update@ == crate::headers::no_entries() ==> outcome is Ok,
            crate::headers::room_for(old(self)@.headers, update@.dom().len()) ==> outcome is Ok,
            outcome is Ok && old(self)@.headers.dom().finite() ==> final(self)@.headers.dom().finite()
                && final(self)@.headers.dom().len() <= old(self)@.headers.dom().len()
                + update@.dom().len(),
    {
        self.headers.update(update)
    }

    /// The body, without taking it.
    pub fn body(&self) -> (body: &Body)
        ensures
            body@ == self@.body,
    {
        &self.body
    }

    /// Replaces the body.
    pub fn set_body(&mut self, body: Body)
        ensures
            final(self)@ == (ResponseView { body: body@, ..old(self)@ }),
    {
        self.body = body;
    }

    /// The media type of the body, from the `Content-Type` header.
    pub fn mime(&self) -> (mime: Option<Mime>)
        ensures
            mime is Some <==> content_type_of(self@.headers) is Some,
            mime matches Some(m) ==> content_type_of(self@.headers) == Some(m@),
    {
        proof {
            lemma_content_type_name();
        }
        match self.headers.get("content-type") {
            None => None,
            Some(value) => match text_of(value.as_slice()) {
                None => None,
                Some(text) => Mime::parse(text.as_str()),
            },
        }
    }

    /// Takes the body as bytes; the response keeps an empty body.
    pub fn body_bytes(&mut self) -> (bytes: Vec<u8>)
        ensures
            bytes@ == old(self)@.body,
            final(self)@ == (ResponseView { body: Seq::empty(), ..old(self)@ }),
    {
        self.body.take().into_bytes()
    }

    /// Takes the body as text, in the character encoding that the
    /// `Content-Type` header names, or in UTF-8 where it names none. The
    /// response keeps an empty body.
    pub fn body_string(&mut self) -> (res: Result<String, DecodeError>)
        ensures
            final(self)@ == (ResponseView { body: Seq::empty(), ..old(self)@ }),
            match decoded_text(
                label_for(
                    match content_type_of(old(self)@.headers) {
                        Some(m) => m.charset,
                        None => None,
                    },
                ),
                old(self)@.body,
            ) {
                Ok(text) => res is Ok && res->Ok_0@ == text,
                Err(e) => res is Err && res->Err_0.encoding@ == e.0 && res->Err_0.data@ == e.1,
            },
    {
        let mime = self.mime();
        let bytes = self.body_bytes();
        match mime {
            Some(m) => match m.charset {
                Some(c) => decode_body(bytes, Some(c.as_str())),
                None => decode_body(bytes, None),
            },
            None => decode_body(bytes, None),
        }
    }
}

/// `content-type` is a header name in canonical form.
pub proof fn lemma_content_type_name()
    ensures
        valid_name("content-type"@),
        canonical_name("content-type"@) == "content-type"@,
{
    reveal_strlit("content-type");
}

/// `Mime::from_str` of the `mime` crate, with the media type handed back as
/// its text and the value of its `charset` parameter (`Mime::get_param`).
#[verifier::external_body]
fn parse_media_type(text: &str) -> (mime: Option<(String, Option<String>)>)
    ensures
        mime is Some <==> parsed_media_type(text@) is Some,
        mime matches Some(m) ==> parsed_media_type(text@) == Some(
            (MimeView {
                source: m.0@,
                charset: match m.1 {
                    Some(c) => Some(c@),
                    None => None,
                },
            }),
        ),
{
    match text.parse::<mime::Mime>() {
        Ok(m) => Some(
            (m.as_ref().to_string(), m.get_param("charset").map(|c| c.as_str().to_string())),
        ),
        Err(_) => None,
    }
}

/// `Encoding::for_label` and, where that finds an encoding,
/// `Encoding::decode` of `encoding_rs`: the text, the name of the encoding
/// that was used (a byte order mark can choose another one than the label
/// names), whether malformed sequences were replaced, and whether the text
/// came as `Cow::Borrowed`.
#[verifier::external_body]
fn decode_with_label(label: &str, bytes: &[u8]) -> (decoded: Option<(String, String, bool, bool)>)
    requires
        bytes@.len() <= max_text_len(),
    ensures
        decoded is Some <==> charset_decoded(label@, bytes@) is Some,
        decoded matches Some(d) ==> charset_decoded(label@, bytes@) == Some(
            (d.0@, d.1@, d.2, d.3),
        ),
{
    match encoding_rs::Encoding::for_label(label.as_bytes()) {
        Some(encoding) => {
            let (text, used, malformed) = encoding.decode(bytes);
            let lent = matches!(text, std::borrow::Cow::Borrowed(_));
            Some((text.into_owned(), used.name().to_string(), malformed, lent))
        },
        None => None,
    }
}

} // verus!
