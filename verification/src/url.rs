//! URLs, parsed and resolved by the `url` crate and kept in serialized form.

use crate::error::Error;
use vstd::prelude::*;

verus! {

/// An absolute URL.
///
/// The view is the URL's serialization, as the parser wrote it.
#[derive(Debug)]
pub struct Url {
    text: String,
}

impl View for Url {
    type V = Seq<char>;

    closed spec fn view(&self) -> Seq<char> {
        self.text@
    }
}

/// The serialization of the URL that `input` parses to, if it is an
/// absolute URL.
pub uninterp spec fn parsed_url(input: Seq<char>) -> Option<Seq<char>>;

/// The serialization of the URL that `reference` resolves to against the
/// URL that `base` parses to, if both are well formed.
pub uninterp spec fn joined_url(base: Seq<char>, reference: Seq<char>) -> Option<Seq<char>>;

/// The query of the URL that `url` parses to, if it has one.
pub uninterp spec fn query_of(url: Seq<char>) -> Option<Seq<char>>;

/// The serialization of the URL that `url` parses to, with its query
/// replaced by `query`, or taken away where `query` is nothing; nothing if
/// `url` is no URL.
pub uninterp spec fn query_set(url: Seq<char>, query: Option<Seq<char>>) -> Option<Seq<char>>;

/// The most bytes that a URL and a new query may have together for the query
/// to be set. The result has to stay below four gibibytes, and this bound
/// keeps it there even where it is forty times as long as the two.
pub const MAX_QUERY_TOTAL: usize = 100_000_000;

/// Whether `query` can be set on the URL with the serialization `url`: the
/// serialization is ASCII, and the two are not too long together. A query
/// can always be taken away.
pub open spec fn query_fits(url: Seq<char>, query: Option<Seq<char>>) -> bool {
    match query {
        Some(q) => vstd::utf8::is_ascii_chars(url) && vstd::utf8::encode_utf8(url).len()
            + vstd::utf8::encode_utf8(q).len() <= MAX_QUERY_TOTAL,
        None => true,
    }
}

/// The serialization of a URL after its query was set to `query`: changed
/// where the query fits and the serialization is one of a URL, and else as
/// it was.
pub open spec fn query_replaced(url: Seq<char>, query: Option<Seq<char>>) -> Seq<char> {
    if query_fits(url, query) && query_set(url, query) is Some {
        query_set(url, query)->Some_0
    } else {
        url
    }
}

/// What a string is, if there is one.
pub open spec fn text_view(text: Option<&str>) -> Option<Seq<char>> {
    match text {
        Some(t) => Some(t@),
        None => None,
    }
}

impl Url {
    /// Parses an absolute URL.
    pub fn parse(input: &str) -> (res: Result<Url, Error>)
        ensures
            parsed_url(input@) is Some ==> res is Ok && res->Ok_0@ == parsed_url(input@)->Some_0,
            parsed_url(input@) is None ==> res matches Err(Error::Url(_)),
    {
        match parse_absolute(input) {
            Ok(text) => Ok(Url { text }),
            Err(message) => Err(Error::Url(message)),
        }
    }

    /// Resolves `reference`, absolute or relative, against this URL.
    pub fn join(&self, reference: &str) -> (res: Result<Url, Error>)
        ensures
            joined_url(self@, reference@) is Some ==> res is Ok && res->Ok_0@ == joined_url(
                self@,
                reference@,
            )->Some_0,
            joined_url(self@, reference@) is None ==> res matches Err(Error::Url(_)),
    {
        match resolve(self.text.as_str(), reference) {
            Ok(text) => Ok(Url { text }),
            Err(message) => Err(Error::Url(message)),
        }
    }

    /// The serialization of this URL.
    pub fn as_str(&self) -> (text: &str)
        ensures
            text@ == self@,
    {
        self.text.as_str()
    }

    /// The query string of this URL.
    pub fn query(&self) -> (query: Option<String>)
        ensures
            query is Some <==> query_of(self@) is Some,
            query matches Some(q) ==> query_of(self@) == Some(q@),
    {
        query_part(self.text.as_str())
    }

    /// Replaces the query string of this URL, or takes it away. A query
    /// that would make the URL too long is not set, and the URL stays as it
    /// is.
    pub fn set_query(&mut self, query: Option<&str>)
        ensures
            final(self)@ == query_replaced(old(self)@, text_view(query)),
    {
        let fits = match query {
            Some(q) => {
                let url_len = self.text.as_str().as_bytes().len();
                let query_len = q.as_bytes().len();
                self.text.as_str().is_ascii() && url_len <= MAX_QUERY_TOTAL && query_len
                    <= MAX_QUERY_TOTAL - url_len
            },
            None => true,
        };
        if fits {
            match replace_query(self.text.as_str(), query) {
                Some(text) => {
                    self.text = text;
                },
                None => {},
            }
        }
    }

    /// A copy of this URL.
    pub fn duplicate(&self) -> (copy: Url)
        ensures
            copy@ == self@,
    {
        Url { text: self.text.clone() }
    }
}

impl Clone for Url {
    fn clone(&self) -> (copy: Self)
        ensures
            copy@ == self@,
    {
        self.duplicate()
    }
}

/// `url::Url::parse`, with the URL handed back in its serialization and the
/// error as its message.
#[verifier::external_body]
fn parse_absolute(input: &str) -> (res: Result<String, String>)
    ensures
        parsed_url(input@) is Some ==> res is Ok && res->Ok_0@ == parsed_url(input@)->Some_0,
        parsed_url(input@) is None ==> res is Err,
{
    match url::Url::parse(input) {
        Ok(url) => Ok(String::from(url)),
        Err(err) => Err(err.to_string()),
    }
}

/// `url::Url::join` on the URL that `base` parses to, with the URL handed
/// back in its serialization and the error as its message.
#[verifier::external_body]
fn resolve(base: &str, reference: &str) -> (res: Result<String, String>)
    ensures
        joined_url(base@, reference@) is Some ==> res is Ok && res->Ok_0@ == joined_url(
            base@,
            reference@,
        )->Some_0,
        joined_url(base@, reference@) is None ==> res is Err,
{
    match url::Url::parse(base) {
        Ok(url) => match url.join(reference) {
            Ok(joined) => Ok(String::from(joined)),
            Err(err) => Err(err.to_string()),
        },
        Err(err) => Err(err.to_string()),
    }
}

/// `url::Url::query` on the URL that `url` parses to.
#[verifier::external_body]
fn query_part(url: &str) -> (query: Option<String>)
    ensures
        query is Some <==> query_of(url@) is Some,
        query matches Some(q) ==> query_of(url@) == Some(q@),
{
    match url::Url::parse(url) {
        Ok(parsed) => parsed.query().map(|q| q.to_string()),
        Err(_) => None,
    }
}

/// `url::Url::set_query` on the URL that `url` parses to, with the URL
/// handed back in its serialization. The outside function panics where the
/// serialization with the new query has more bytes than a `u32` counts.
/// Writing the query makes at most three bytes of one, and so does parsing
/// ASCII, but for the names of hosts, which it may write out longer.
#[verifier::external_body]
fn replace_query(url: &str, query: Option<&str>) -> (text: Option<String>)
    requires
        query_fits(url@, text_view(query)),
    ensures
        text is Some <==> query_set(url@, text_view(query)) is Some,
        text matches Some(t) ==> query_set(url@, text_view(query)) == Some(t@),
{
    match url::Url::parse(url) {
        Ok(mut parsed) => {
            parsed.set_query(query);
            Some(String::from(parsed))
        },
        Err(_) => None,
    }
}

} // verus!
