//! The errors that the pipeline reports.

use crate::headers::HeaderError;
use vstd::prelude::*;

verus! {

/// Why a `Content-Encoding` could not be undone.
#[derive(Clone, Copy, Debug, PartialEq, Eq, Structural)]
pub enum CompressionError {
    /// The header value is not text that can be split into encoding names.
    InvalidContentEncodingHeader,
    /// The header names an encoding for which there is no decoder.
    UnsupportedContentEncoding,
    /// The body is not valid data of the encoding that the header names.
    CorruptBody,
}

/// Everything that can go wrong between a request and its response.
#[derive(Debug)]
pub enum Error {
    /// A string that should be a URL is none. Holds the parser's message.
    Url(String),
    /// The `Location` of a redirect is no URL. Holds the parser's message.
    Location(String),
    /// A header was refused.
    Header(HeaderError),
    /// The transport or the store failed. Holds the message with which it
    /// failed, unchanged. This crate reports no such error; whoever drives
    /// the transport and the store does.
    Transport(String),
    /// The cache mode allows only cached responses and none is stored.
    OnlyIfCached,
    /// A cache entry does not hold a status code.
    CorruptCacheEntry,
    /// A response body could not be decoded.
    Compression(CompressionError),
    /// Middleware was added to a client that has already sent a request.
    ClientInUse,
}

impl From<HeaderError> for Error {
    fn from(err: HeaderError) -> (error: Error) {
        Error::Header(err)
    }
}

impl vstd::std_specs::convert::FromSpecImpl<HeaderError> for Error {
    open spec fn obeys_from_spec() -> bool {
        true
    }

    open spec fn from_spec(err: HeaderError) -> Error {
        Error::Header(err)
    }
}

impl From<CompressionError> for Error {
    fn from(err: CompressionError) -> (error: Error) {
        Error::Compression(err)
    }
}

impl vstd::std_specs::convert::FromSpecImpl<CompressionError> for Error {
    open spec fn obeys_from_spec() -> bool {
        true
    }

    open spec fn from_spec(err: CompressionError) -> Error {
        Error::Compression(err)
    }
}

impl CompressionError {
    /// The message of this error.
    pub fn message(&self) -> (text: &'static str)
        ensures
            text@ == match *self {
                CompressionError::InvalidContentEncodingHeader => "Invalid content encoding header"@,
                CompressionError::UnsupportedContentEncoding => "Unsupported content encoding"@,
                CompressionError::CorruptBody => "Corrupt encoded body"@,
            },
    {
        match self {
            CompressionError::InvalidContentEncodingHeader => "Invalid content encoding header",
            CompressionError::UnsupportedContentEncoding => "Unsupported content encoding",
            CompressionError::CorruptBody => "Corrupt encoded body",
        }
    }
}

} // verus!
