//! Compression middleware.
//!
//! It asks the server for a compressed response by setting
//! `Accept-Encoding`, and undoes the `Content-Encoding` of the response that
//! comes back. It supports `gzip`, `deflate`, `br` and `zstd`.

use crate::error::CompressionError;
use crate::headers::canonical_name;
use crate::headers::has_name;
use crate::headers::valid_name;
use crate::headers::valid_value;
use crate::headers::HeaderError;
use crate::message::Body;
use crate::request::Request;
use crate::request::RequestView;
use crate::response::Response;
use crate::response::ResponseView;
use crate::text::bytes_eq;
use crate::text::items;
use crate::text::split;
use crate::text::split_bytes;
use crate::text::trim_bytes;
use crate::text::views;
use vstd::prelude::*;
use vstd::string::StringSliceAdditionalSpecFns;

verus! {

/// A content encoding.
#[derive(Clone, Copy, Debug, PartialEq, Eq, Structural)]
pub enum Encoding {
    /// `gzip`
    Gzip,
    /// `deflate`
    Deflate,
    /// `br`
    Brotli,
    /// `zstd`
    Zstd,
    /// `identity`: the body as it is.
    Identity,
}

/// The value that the middleware gives to `Accept-Encoding`.
pub open spec fn supported_encodings() -> Seq<u8> {
    "gzip, br, deflate, zstd".spec_bytes()
}

/// The encoding that a token of `Content-Encoding` names. The names are
/// matched exactly, in lower case.
pub open spec fn encoding_named(token: Seq<u8>) -> Option<Encoding> {
    if token == "gzip".spec_bytes() {
        Some(Encoding::Gzip)
    } else if token == "deflate".spec_bytes() {
        Some(Encoding::Deflate)
    } else if token == "br".spec_bytes() {
        Some(Encoding::Brotli)
    } else if token == "zstd".spec_bytes() {
        Some(Encoding::Zstd)
    } else if token == "identity".spec_bytes() {
        Some(Encoding::Identity)
    } else {
        None
    }
}

/// A byte of printable ASCII, a space or a tab: what a header value must
/// consist of to be read as a list of names.
pub open spec fn is_text_byte(b: u8) -> bool {
    (32 <= b < 127) || b == 9
}

/// Whether `value` is text that can be split into names.
pub open spec fn is_text(value: Seq<u8>) -> bool {
    forall|i: int| 0 <= i < value.len() ==> is_text_byte(#[trigger] value[i])
}

/// The encodings that a `Content-Encoding` value lists, in the order in
/// which they have to be undone: the last one listed comes first, since it
/// was applied last.
pub open spec fn decoding_order(value: Seq<u8>) -> Result<Seq<Encoding>, CompressionError> {
    let listed = items(value);
    if !is_text(value) {
        Err(CompressionError::InvalidContentEncodingHeader)
    } else if exists|i: int| 0 <= i < listed.len() && encoding_named(#[trigger] listed[i]) is None {
        Err(CompressionError::UnsupportedContentEncoding)
    } else {
        Ok(
            Seq::new(
                listed.len(),
                |i: int| encoding_named(listed[listed.len() - 1 - i])->Some_0,
            ),
        )
    }
}

/// What a gzip decoder reads from `data`, if `data` is a gzip stream.
pub uninterp spec fn gzip_decoded(data: Seq<u8>) -> Option<Seq<u8>>;

/// What a deflate decoder reads from `data`, if `data` is a deflate stream.
pub uninterp spec fn deflate_decoded(data: Seq<u8>) -> Option<Seq<u8>>;

/// What a Brotli decoder reads from `data`, if `data` is a Brotli stream.
pub uninterp spec fn brotli_decoded(data: Seq<u8>) -> Option<Seq<u8>>;

/// What a Zstandard decoder reads from `data`, if `data` is a Zstandard
/// stream.
pub uninterp spec fn zstd_decoded(data: Seq<u8>) -> Option<Seq<u8>>;

/// `data` with one encoding undone.
pub open spec fn decoded_once(encoding: Encoding, data: Seq<u8>) -> Option<Seq<u8>> {
    match encoding {
        Encoding::Gzip => gzip_decoded(data),
        Encoding::Deflate => deflate_decoded(data),
        Encoding::Brotli => brotli_decoded(data),
        Encoding::Zstd => zstd_decoded(data),
        Encoding::Identity => Some(data),
    }
}

/// `data` with the given encodings undone, the first of them first.
pub open spec fn decoded(encodings: Seq<Encoding>, data: Seq<u8>) -> Option<Seq<u8>>
    decreases encodings.len(),
{
    if encodings.len() == 0 {
        Some(data)
    } else {
        match decoded_once(encodings[0], data) {
            Some(inner) => decoded(encodings.drop_first(), inner),
            None => None,
        }
    }
}

/// The response that `decode` leaves, or the error that it reports, for the
/// response `res`.
pub open spec fn decode_result(res: ResponseView) -> Result<ResponseView, CompressionError> {
    if !has_name(res.headers, "content-encoding"@) || res.headers["content-encoding"@].len() == 0 {
        Ok(res)
    } else {
        match decoding_order(res.headers["content-encoding"@][0]) {
            Err(e) => Err(e),
            Ok(encodings) => match decoded(encodings, res.body) {
                None => Err(CompressionError::CorruptBody),
                Some(body) => Ok(
                    ResponseView {
                        headers: res.headers.remove("content-encoding"@),
                        body,
                        ..res
                    },
                ),
            },
        }
    }
}

/// A response without `Content-Encoding` is left as it is, byte for byte.
pub proof fn decode_leaves_plain_responses(res: ResponseView)
    requires
        !has_name(res.headers, "content-encoding"@),
    ensures
        decode_result(res) == Ok::<ResponseView, CompressionError>(res),
{
}

/// Decoding what has been decoded changes nothing, and what has been
/// decoded has no `Content-Encoding` any more.
pub proof fn decode_is_idempotent(res: ResponseView)
    requires
        decode_result(res) is Ok,
    ensures
        decode_result(decode_result(res)->Ok_0) == decode_result(res),
        has_name(res.headers, "content-encoding"@) && res.headers["content-encoding"@].len() > 0
            ==> !has_name(decode_result(res)->Ok_0.headers, "content-encoding"@),
{
    lemma_compression_headers();
}

/// Middleware that handles the compression of incoming responses.
#[derive(Clone, Copy, Debug, PartialEq, Eq, Structural)]
pub struct Compression;

/// Creates the compression middleware.
pub fn new() -> Compression {
    Compression::new()
}

/// The names that the middleware uses are header names in canonical form,
/// and the list of supported encodings is a header value.
pub proof fn lemma_compression_headers()
    ensures
        valid_name("accept-encoding"@),
        canonical_name("accept-encoding"@) == "accept-encoding"@,
        valid_name("content-encoding"@),
        canonical_name("content-encoding"@) == "content-encoding"@,
        valid_value(supported_encodings()),
{
    reveal_strlit("accept-encoding");
    reveal_strlit("content-encoding");
    reveal_strlit("gzip, br, deflate, zstd");
    vstd::string::is_ascii_spec_bytes("gzip, br, deflate, zstd");
}

impl Compression {
    /// Creates the compression middleware.
    pub fn new() -> Self {
        Compression
    }

    /// Reads one name of a `Content-Encoding` value.
    pub fn parse_encoding(token: &[u8]) -> (res: Result<Encoding, CompressionError>)
        ensures
            match encoding_named(token@) {
                Some(e) => res == Ok::<Encoding, CompressionError>(e),
                None => res == Err::<Encoding, CompressionError>(
                    CompressionError::UnsupportedContentEncoding,
                ),
            },
    {
        if bytes_eq(token, "gzip".as_bytes()) {
            Ok(Encoding::Gzip)
        } else if bytes_eq(token, "deflate".as_bytes()) {
            Ok(Encoding::Deflate)
        } else if bytes_eq(token, "br".as_bytes()) {
            Ok(Encoding::Brotli)
        } else if bytes_eq(token, "zstd".as_bytes()) {
            Ok(Encoding::Zstd)
        } else if bytes_eq(token, "identity".as_bytes()) {
            Ok(Encoding::Identity)
        } else {
            Err(CompressionError::UnsupportedContentEncoding)
        }
    }

    /// Reads a `Content-Encoding` value: the encodings that it lists, in the
    /// order in which they have to be undone.
    pub fn parse_encodings(value: &[u8]) -> (res: Result<Vec<Encoding>, CompressionError>)
        ensures
            match decoding_order(value@) {
                Ok(encodings) => res is Ok && res->Ok_0@ == encodings,
                Err(e) => res == Err::<Vec<Encoding>, CompressionError>(e),
            },
    {
        let mut k: usize = 0;
        while k < value.len()
            invariant
                k <= value.len(),
                forall|j: int| 0 <= j < k ==> is_text_byte(#[trigger] value@[j]),
            decreases value.len() - k,
        {
            let b: u8 = value[k];
            if !((32 <= b && b < 127) || b == 9) {
                return Err(CompressionError::InvalidContentEncodingHeader);
            }
            k += 1;
        }
        let pieces = split_bytes(value, 44);
        let ghost listed = items(value@);
        let mut encodings: Vec<Encoding> = Vec::new();
        let mut i: usize = pieces.len();
        while i > 0
            invariant
                i <= pieces.len(),
                listed == items(value@),
                listed.len() == pieces.len(),
                views(pieces@) == split(value@, 44),
                encodings.len() == pieces.len() - i,
                forall|j: int| i <= j < pieces.len() ==> encoding_named(#[trigger] listed[j]) is Some,
                forall|j: int|
                    0 <= j < encodings.len() ==> encodings@[j] == encoding_named(
                        listed[listed.len() - 1 - j],
                    )->Some_0,
                is_text(value@),
            decreases i,
        {
            i -= 1;
            let token = trim_bytes(pieces[i].as_slice());
            assert(token@ == listed[i as int]);
            match Compression::parse_encoding(token.as_slice()) {
                Ok(e) => {
                    encodings.push(e);
                },
                Err(e) => {
                    return Err(e);
                },
            }
        }
        Ok(encodings)
    }

    /// Undoes the given encodings on `data`, the first of them first.
    pub fn decode_bytes(encodings: &Vec<Encoding>, data: Vec<u8>) -> (out: Option<Vec<u8>>)
        ensures
            out is Some <==> decoded(encodings@, data@) is Some,
            out matches Some(v) ==> decoded(encodings@, data@) == Some(v@),
    {
        let mut current: Vec<u8> = data;
        let mut i: usize = 0;
        assert(encodings@.subrange(0, encodings.len() as int) =~= encodings@);
        while i < encodings.len()
            invariant
                i <= encodings.len(),
                decoded(encodings@, data@) == decoded(
                    encodings@.subrange(i as int, encodings.len() as int),
                    current@,
                ),
            decreases encodings.len() - i,
        {
            let ghost rest = encodings@.subrange(i as int, encodings.len() as int);
            assert(rest.drop_first() =~= encodings@.subrange(i + 1, encodings.len() as int));
            let step = match encodings[i] {
                Encoding::Gzip => gzip_decode(current.as_slice()),
                Encoding::Deflate => deflate_decode(current.as_slice()),
                Encoding::Brotli => brotli_decode(current.as_slice()),
                Encoding::Zstd => zstd_decode(current.as_slice()),
                Encoding::Identity => Some(current),
            };
            match step {
                Some(inner) => {
                    current = inner;
                },
                None => {
                    return None;
                },
            }
            i += 1;
        }
        Some(current)
    }

    /// Prepares a request for the rest of the chain: sets `Accept-Encoding`
    /// to the supported encodings, whatever the caller had put there.
    pub fn handle<M>(&self, req: &mut Request<M>) -> (outcome: Result<(), HeaderError>)
        ensures
            outcome is Ok || outcome matches Err(HeaderError::TooManyHeaders),
            crate::headers::has_room(old(req)@.headers) ==> outcome is Ok,
            outcome is Err ==> final(req)@ == old(req)@,
            outcome is Ok ==> final(req)@ == (RequestView {
                headers: old(req)@.headers.insert("accept-encoding"@, seq![supported_encodings()]),
                ..old(req)@
            }),
    {
        proof {
            lemma_compression_headers();
        }
        req.set_header("accept-encoding", "gzip, br, deflate, zstd".as_bytes())
    }

    /// Puts a decoded body into the response and removes the
    /// `Content-Encoding` header; reports a corrupt body where there is
    /// nothing to put.
    pub fn finish(res: &mut Response, body: Option<Vec<u8>>) -> (outcome: Result<(), CompressionError>)
        ensures
            body is None ==> outcome == Err::<(), CompressionError>(CompressionError::CorruptBody)
                && final(res)@ == old(res)@,
            body matches Some(b) ==> outcome is Ok && final(res)@ == (ResponseView {
                headers: old(res)@.headers.remove("content-encoding"@),
                body: b@,
                ..old(res)@
            }),
    {
        proof {
            lemma_compression_headers();
        }
        match body {
            None => Err(CompressionError::CorruptBody),
            Some(b) => {
                res.set_body(Body::from_bytes(b));
                let ghost middle = res@;
                res.remove_header("content-encoding");
                assert(!has_name(middle.headers, "content-encoding"@) ==> middle.headers.remove(
                    "content-encoding"@,
                ) =~= middle.headers);
                Ok(())
            },
        }
    }

    /// Decodes the body of a response as its `Content-Encoding` header asks,
    /// and removes that header. A response without the header is left as it
    /// is; so is one for which an error is reported.
    pub fn decode(&self, res: &mut Response) -> (outcome: Result<(), CompressionError>)
        ensures
            match decode_result(old(res)@) {
                Ok(after) => outcome is Ok && final(res)@ == after,
                Err(e) => outcome == Err::<(), CompressionError>(e) && final(res)@ == old(res)@,
            },
    {
        proof {
            lemma_compression_headers();
        }
        let value = match res.header("content-encoding") {
            Some(v) => v,
            None => {
                return Ok(());
            },
        };
        let encodings = match Compression::parse_encodings(value.as_slice()) {
            Ok(e) => e,
            Err(e) => {
                return Err(e);
            },
        };
        let body = res.body().duplicate().into_bytes();
        let decoded = Compression::decode_bytes(&encodings, body);
        Compression::finish(res, decoded)
    }
}

/// The gzip decoder of `async-compression`, read to its end. The decoder
/// reads from memory, so that it never has to wait: it is polled once.
#[verifier::external_body]
fn gzip_decode(data: &[u8]) -> (out: Option<Vec<u8>>)
    ensures
        out is Some <==> gzip_decoded(data@) is Some,
        out matches Some(v) ==> gzip_decoded(data@) == Some(v@),
{
    let mut decoder = async_compression::futures::bufread::GzipDecoder::new(data);
    let mut out = Vec::new();
    let read = futures::AsyncReadExt::read_to_end(&mut decoder, &mut out);
    match futures::FutureExt::now_or_never(read) {
        Some(Ok(_)) => Some(out),
        _ => None,
    }
}

/// The deflate decoder of `async-compression`, read to its end, as for
/// gzip.
#[verifier::external_body]
fn deflate_decode(data: &[u8]) -> (out: Option<Vec<u8>>)
    ensures
        out is Some <==> deflate_decoded(data@) is Some,
        out matches Some(v) ==> deflate_decoded(data@) == Some(v@),
{
    let mut decoder = async_compression::futures::bufread::DeflateDecoder::new(data);
    let mut out = Vec::new();
    let read = futures::AsyncReadExt::read_to_end(&mut decoder, &mut out);
    match futures::FutureExt::now_or_never(read) {
        Some(Ok(_)) => Some(out),
        _ => None,
    }
}

/// The Brotli decoder of `async-compression`, read to its end, as for
/// gzip.
#[verifier::external_body]
fn brotli_decode(data: &[u8]) -> (out: Option<Vec<u8>>)
    ensures
        out is Some <==> brotli_decoded(data@) is Some,
        out matches Some(v) ==> brotli_decoded(data@) == Some(v@),
{
    let mut decoder = async_compression::futures::bufread::BrotliDecoder::new(data);
    let mut out = Vec::new();
    let read = futures::AsyncReadExt::read_to_end(&mut decoder, &mut out);
    match futures::FutureExt::now_or_never(read) {
        Some(Ok(_)) => Some(out),
        _ => None,
    }
}

/// The Zstandard decoder of `async-compression`, read to its end, as for
/// gzip.
#[verifier::external_body]
fn zstd_decode(data: &[u8]) -> (out: Option<Vec<u8>>)
    ensures
        out is Some <==> zstd_decoded(data@) is Some,
        out matches Some(v) ==> zstd_decoded(data@) == Some(v@),
{
    let mut decoder = async_compression::futures::bufread::ZstdDecoder::new(data);
    let mut out = Vec::new();
    let read = futures::AsyncReadExt::read_to_end(&mut decoder, &mut out);
    match futures::FutureExt::now_or_never(read) {
        Some(Ok(_)) => Some(out),
        _ => None,
    }
}

} // verus!
