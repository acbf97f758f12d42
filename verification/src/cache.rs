//! HTTP cache middleware.
//!
//! The cache decides, for a request and for what its store holds for that
//! request, whether a stored response is served, checked with the server, or
//! passed over for a response from the network, and whether the response
//! from the network is stored. Reading and writing the store, and talking to
//! the network, is left to the caller.

use crate::error::Error;
use crate::freshness::cache_directive;
use crate::freshness::cache_directive_of;
use crate::freshness::first_value;
use crate::freshness::fresh;
use crate::freshness::header_value;
use crate::freshness::is_digit;
use crate::freshness::is_fresh;
use crate::freshness::lemma_cache_names;
use crate::headers::canonical_name;
use crate::headers::has_name;
use crate::headers::has_room;
use crate::headers::room_for;
use crate::headers::valid_value;
use crate::headers::valid_name;
use crate::headers::values_of;
use crate::headers::HeaderEntries;
use crate::headers::HeaderError;
use crate::headers::Headers;
use crate::message::Body;
use crate::message::Method;
use crate::message::StatusCode;
use crate::request::Request;
use crate::request::RequestView;
use crate::response::Response;
use crate::response::ResponseView;
use crate::text::views;
use vstd::prelude::*;
use vstd::string::StringSliceAdditionalSpecFns;

verus! {

/// Cache modes, based on JavaScript's `fetch()` cache modes.
#[derive(Clone, Copy, Debug, PartialEq, Eq, Structural)]
pub enum CacheMode {
    /// Serve what is stored and fresh, check what is stored and stale, fetch
    /// and store what is not stored.
    Default,
    /// Neither read the store nor write it.
    NoStore,
    /// Check what is stored with the server before serving it.
    NoCache,
    /// Do not read the store; fetch, and store what comes.
    Reload,
    /// Serve what is stored, fresh or stale; fetch what is not stored.
    ForceCache,
    /// Serve what is stored, fresh or stale; fail for what is not stored.
    OnlyIfCached,
}

/// Whether a request with these headers is conditional: whether it has one
/// of `If-Modified-Since`, `If-None-Match`, `If-Unmodified-Since`,
/// `If-Match` and `If-Range`.
pub open spec fn conditional(headers: HeaderEntries) -> bool {
    ||| has_name(headers, "if-modified-since"@)
    ||| has_name(headers, "if-none-match"@)
    ||| has_name(headers, "if-unmodified-since"@)
    ||| has_name(headers, "if-match"@)
    ||| has_name(headers, "if-range"@)
}

/// Whether the headers of a request make it conditional.
pub fn has_cond_header(headers: &Headers) -> (yes: bool)
    ensures
        yes == conditional(headers@),
{
    headers.contains("if-modified-since") || headers.contains("if-none-match") || headers.contains(
        "if-unmodified-since",
    ) || headers.contains("if-match") || headers.contains("if-range")
}

/// The key under which the response to a request with the given method for
/// `url` is stored: a namespace, a version, and the method with the URL.
pub open spec fn key_of(method: Method, url: Seq<char>) -> Seq<char> {
    "surf:req:v1:"@ + method.name() + ":"@ + url
}

/// The key under which the response to a request is stored.
pub fn cache_key<M>(req: &Request<M>) -> (key: String)
    ensures
        key@ == key_of(req@.method, req@.url),
{
    String::from_str("surf:req:v1:").concat(req.method().as_str()).concat(":").concat(
        req.url().as_str(),
    )
}

/// The name of a method has three to seven characters, none of them a
/// colon, and no two methods have the same name.
pub proof fn lemma_method_names(method: Method, other: Method)
    ensures
        3 <= method.name().len() <= 7,
        forall|i: int| 0 <= i < method.name().len() ==> #[trigger] method.name()[i] != ':',
        method.name() == other.name() ==> method == other,
{
    reveal_strlit("GET");
    reveal_strlit("HEAD");
    reveal_strlit("POST");
    reveal_strlit("PUT");
    reveal_strlit("DELETE");
    reveal_strlit("CONNECT");
    reveal_strlit("OPTIONS");
    reveal_strlit("TRACE");
    reveal_strlit("PATCH");
    if method.name() == other.name() {
        assert(method.name()[0] == other.name()[0]);
        assert(method.name()[1] == other.name()[1]);
        assert(method.name().len() == other.name().len());
    }
}

/// Requests that differ in their method or in their URL are stored under
/// different keys.
pub proof fn keys_differ(method: Method, url: Seq<char>, other: Method, other_url: Seq<char>)
    requires
        method != other || url != other_url,
    ensures
        key_of(method, url) != key_of(other, other_url),
{
    reveal_strlit("surf:req:v1:");
    reveal_strlit(":");
    lemma_method_names(method, other);
    lemma_method_names(other, method);
    let a = key_of(method, url);
    let b = key_of(other, other_url);
    let n = method.name().len() as int;
    let m = other.name().len() as int;
    if a == b {
        assert(a[12 + n] == ':');
        assert(b[12 + m] == ':');
        if n < m {
            assert(b[12 + n] == other.name()[n]);
        } else if m < n {
            assert(a[12 + m] == method.name()[m]);
        } else {
            assert(method.name() =~= other.name()) by {
                assert forall|i: int| 0 <= i < n implies method.name()[i] == other.name()[i] by {
                    assert(a[12 + i] == method.name()[i]);
                    assert(b[12 + i] == other.name()[i]);
                }
            }
            assert(url =~= other_url) by {
                assert(a.len() == b.len());
                assert forall|i: int| 0 <= i < url.len() implies url[i] == other_url[i] by {
                    assert(a[13 + n + i] == url[i]);
                    assert(b[13 + n + i] == other_url[i]);
                }
            }
        }
    }
}

/// Whether a `Warning` value has a warn-code of the form 1xx: whether it
/// starts with the digit one and two more digits, and no fourth.
pub open spec fn stale_warning(value: Seq<u8>) -> bool {
    &&& value.len() >= 3
    &&& value[0] == 49
    &&& is_digit(value[1])
    &&& is_digit(value[2])
    &&& (value.len() == 3 || !is_digit(value[3]))
}

/// The `Warning` values that stay when a stored response is chosen: all but
/// those with a warn-code 1xx, in their order.
pub open spec fn retained(values: Seq<Seq<u8>>) -> Seq<Seq<u8>>
    decreases values.len(),
{
    if values.len() == 0 {
        Seq::empty()
    } else if stale_warning(values.last()) {
        retained(values.drop_last())
    } else {
        retained(values.drop_last()).push(values.last())
    }
}

/// The headers of a stored response without its `Warning` values of
/// warn-code 1xx.
pub open spec fn without_stale_warnings(headers: HeaderEntries) -> HeaderEntries {
    let kept = retained(values_of(headers, "warning"@));
    if kept.len() == 0 {
        headers.remove("warning"@)
    } else {
        headers.insert("warning"@, kept)
    }
}

/// No value that stays has a warn-code 1xx, and every value that has none
/// stays.
pub proof fn lemma_retained(values: Seq<Seq<u8>>)
    ensures
        forall|i: int| 0 <= i < retained(values).len() ==> !stale_warning(#[trigger] retained(values)[i]),
        forall|i: int|
            0 <= i < values.len() && !stale_warning(#[trigger] values[i]) ==> retained(
                values,
            ).contains(values[i]),
        retained(values).len() <= values.len(),
    decreases values.len(),
{
    if values.len() > 0 {
        let front = values.drop_last();
        lemma_retained(front);
        assert forall|i: int|
            0 <= i < values.len() && !stale_warning(#[trigger] values[i]) implies retained(
            values,
        ).contains(values[i]) by {
            if i < values.len() - 1 {
                let k = choose|k: int| 0 <= k < retained(front).len() && retained(front)[k] == front[i];
                assert(retained(values)[k] == values[i]);
            } else {
                assert(retained(values).last() == values[i]);
            }
        }
    }
}

/// A served response never warns that it is stale: once the warnings of
/// warn-code 1xx are taken out, none is left among the `Warning` values, and
/// the other warnings are all still there.
pub proof fn warnings_stripped(headers: HeaderEntries)
    ensures
        forall|i: int|
            0 <= i < values_of(without_stale_warnings(headers), "warning"@).len()
                ==> !stale_warning(
                #[trigger] values_of(without_stale_warnings(headers), "warning"@)[i],
            ),
        forall|i: int|
            0 <= i < values_of(headers, "warning"@).len() && !stale_warning(
                #[trigger] values_of(headers, "warning"@)[i],
            ) ==> values_of(without_stale_warnings(headers), "warning"@).contains(
                values_of(headers, "warning"@)[i],
            ),
{
    lemma_cache_names();
    lemma_retained(values_of(headers, "warning"@));
}

/// Whether a `Warning` value has a warn-code 1xx.
pub fn is_stale_warning(value: &[u8]) -> (yes: bool)
    ensures
        yes == stale_warning(value@),
{
    value.len() >= 3 && value[0] == 49 && (48 <= value[1] && value[1] <= 57) && (48 <= value[2]
        && value[2] <= 57) && (value.len() == 3 || !(48 <= value[3] && value[3] <= 57))
}

/// Takes the `Warning` values of warn-code 1xx out of a stored response.
/// Where the headers cannot be written, the response is left as it was.
pub fn strip_warnings(res: &mut Response) -> (outcome: Result<(), HeaderError>)
    ensures
        outcome is Ok ==> final(res)@ == (ResponseView {
            headers: without_stale_warnings(old(res)@.headers),
            ..old(res)@
        }),
        outcome is Err ==> final(res)@ == old(res)@,
        retained(values_of(old(res)@.headers, "warning"@)) == values_of(
            old(res)@.headers,
            "warning"@,
        ) ==> outcome is Ok,
        has_room(old(res)@.headers) ==> outcome is Ok,
{
    proof {
        lemma_cache_names();
    }
    let values = res.headers().get_all("warning");
    let ghost all = views(values@);
    let mut kept: Vec<Vec<u8>> = Vec::new();
    let mut i: usize = 0;
    while i < values.len()
        invariant
            i <= values.len(),
            all == views(values@),
            views(kept@) == retained(all.subrange(0, i as int)),
            forall|k: int| 0 <= k < values.len() ==> valid_value(#[trigger] values[k]@),
            forall|k: int| 0 <= k < kept.len() ==> valid_value(#[trigger] kept[k]@),
        decreases values.len() - i,
    {
        let ghost before = all.subrange(0, i as int);
        let ghost after = all.subrange(0, i + 1);
        assert(after.drop_last() =~= before);
        if !is_stale_warning(values[i].as_slice()) {
            kept.push(values[i].clone());
        }
        i += 1;
    }
    assert(all.subrange(0, all.len() as int) =~= all);
    if kept.len() == values.len() {
        proof {
            lemma_same_length_retained(all);
            if has_name(res@.headers, "warning"@) {
                assert(res@.headers.insert("warning"@, all) =~= res@.headers);
            } else {
                assert(res@.headers.remove("warning"@) =~= res@.headers);
            }
        }
        return Ok(());
    }
    proof {
        lemma_retained(all);
    }
    let ghost start = res@;
    let mut staged = res.clone_without_body();
    staged.remove_header("warning");
    let mut j: usize = 0;
    while j < kept.len()
        invariant
            j <= kept.len(),
            valid_name("warning"@),
            canonical_name("warning"@) == "warning"@,
            staged@.status == start.status,
            staged@.version == start.version,
            staged@.ext == start.ext,
            start == old(res)@,
            retained(values_of(start.headers, "warning"@)) != values_of(start.headers, "warning"@),
            has_name(start.headers, "warning"@),
            forall|k: int| 0 <= k < kept.len() ==> valid_value(#[trigger] kept[k]@),
            j == 0 ==> staged@.headers == start.headers.remove("warning"@),
            j > 0 ==> staged@.headers == start.headers.insert(
                "warning"@,
                views(kept@).subrange(0, j as int),
            ),
        decreases kept.len() - j,
    {
        match staged.append_header("warning", kept[j].as_slice()) {
            Ok(_) => {},
            Err(e) => {
                return Err(e);
            },
        }
        proof {
            let so_far = views(kept@).subrange(0, j as int);
            let more = views(kept@).subrange(0, j + 1);
            assert(more =~= so_far.push(kept@[j as int]@));
            if j == 0 {
                assert(so_far =~= Seq::<Seq<u8>>::empty());
            }
        }
        j += 1;
    }
    assert(views(kept@).subrange(0, kept.len() as int) =~= views(kept@));
    let body = res.body_bytes();
    staged.set_body(Body::from_bytes(body));
    *res = staged;
    Ok(())
}

/// Where nothing is taken out, everything stays.
pub proof fn lemma_same_length_retained(values: Seq<Seq<u8>>)
    requires
        retained(values).len() == values.len(),
    ensures
        retained(values) == values,
    decreases values.len(),
{
    if values.len() > 0 {
        lemma_retained(values.drop_last());
        lemma_same_length_retained(values.drop_last());
    }
}

/// The cache middleware: a cache mode, and the place of the store.
#[derive(Debug)]
pub struct Cacache {
    mode: CacheMode,
    path: String,
}

/// What the cache wants done with a request.
#[derive(Debug)]
pub enum CachePlan<M> {
    /// Return this stored response; the network is not needed.
    Serve(Response),
    /// Send `conditional` straight to the transport, and come back with the
    /// response and `cached`.
    Revalidate { conditional: Request<M>, cached: Response },
    /// Send what `remote_request` makes of the request straight to the
    /// transport, and come back with the response.
    Fetch,
}

/// What the cache wants done with a request, as mathematics.
pub enum CachePlanView<M> {
    Serve(ResponseView),
    Revalidate { conditional: RequestView<M>, cached: ResponseView },
    Fetch,
}

impl<M> View for CachePlan<M> {
    type V = CachePlanView<M>;

    open spec fn view(&self) -> CachePlanView<M> {
        match *self {
            CachePlan::Serve(r) => CachePlanView::Serve(r@),
            CachePlan::Revalidate { conditional, cached } => CachePlanView::Revalidate {
                conditional: conditional@,
                cached: cached@,
            },
            CachePlan::Fetch => CachePlanView::Fetch,
        }
    }
}

/// What the cache hands back for a response from the network.
#[derive(Debug)]
pub struct CacheOutcome {
    /// The response for the caller.
    pub response: Response,
    /// The key under which the response is to be stored, if it is.
    pub store: Option<String>,
}

/// The mode that holds for one request: a conditional request manages its
/// own validation, so the cache keeps out of it.
pub open spec fn effective(mode: CacheMode, headers: HeaderEntries) -> CacheMode {
    if conditional(headers) {
        CacheMode::NoStore
    } else {
        mode
    }
}

/// Whether the store is asked for a response to the request: for `GET` and
/// `HEAD`, unless the mode forbids it.
pub open spec fn consults<M>(mode: CacheMode, req: RequestView<M>) -> bool {
    &&& req.method.cacheable()
    &&& effective(mode, req.headers) != CacheMode::NoStore
    &&& effective(mode, req.headers) != CacheMode::Reload
}

/// Whether the response `res` to a request with the given method may be
/// stored: a response with a status 2xx, to a `GET` or a `HEAD`, that does
/// not say `no-store`.
pub open spec fn storable(method: Method, res: ResponseView) -> bool {
    &&& res.status.success()
    &&& method.cacheable()
    &&& cache_directive(res.headers, "no-store".spec_bytes()) is None
}

/// The key under which the response `res` to the request `req` is stored,
/// if it is stored.
pub open spec fn store_key<M>(mode: CacheMode, req: RequestView<M>, res: ResponseView) -> Option<Seq<char>> {
    if effective(mode, req.headers) != CacheMode::NoStore && storable(req.method, res) {
        Some(key_of(req.method, req.url))
    } else {
        None
    }
}

/// The value of a `Warning` header with the given code and text, added by
/// an agent that does not name itself.
pub open spec fn warning_value(code: u16, text: Seq<u8>) -> Seq<u8> {
    seq![(48 + code / 100) as u8, (48 + (code / 10) % 10) as u8, (48 + code % 10) as u8, 32u8, 45u8, 32u8, 34u8]
        + text + seq![34u8]
}

/// A warning is a header value where its text is one.
pub proof fn lemma_warning_value(code: u16, text: Seq<u8>)
    requires
        100 <= code <= 999,
    ensures
        valid_value(warning_value(code, text)) <==> valid_value(text),
{
    let value = warning_value(code, text);
    if valid_value(text) {
        assert forall|i: int| 0 <= i < value.len() implies crate::headers::is_value_byte(
            #[trigger] value[i],
        ) by {
            if 7 <= i < 7 + text.len() {
                assert(value[i] == text[i - 7]);
            }
        }
    }
    if valid_value(value) {
        assert forall|i: int| 0 <= i < text.len() implies crate::headers::is_value_byte(
            #[trigger] text[i],
        ) by {
            assert(value[i + 7] == text[i]);
        }
    }
}

/// The headers of a stored response that is served while the cache is cut
/// off from the network: with the warning 112 added.
pub open spec fn disconnected(headers: HeaderEntries) -> HeaderEntries {
    headers.insert(
        "warning"@,
        values_of(headers, "warning"@).push(
            warning_value(112, "Disconnected operation".spec_bytes()),
        ),
    )
}

/// The headers of the request that asks the server whether a stored
/// response still holds: those of the request, with the `ETag` of the
/// stored response as `If-None-Match`, and its `Last-Modified` as
/// `If-Modified-Since`.
pub open spec fn with_validators(request: HeaderEntries, stored: HeaderEntries) -> HeaderEntries {
    let tagged = match header_value(stored, "etag"@) {
        Some(tag) => request.insert("if-none-match"@, seq![tag]),
        None => request,
    };
    match header_value(stored, "last-modified"@) {
        Some(date) => tagged.insert("if-modified-since"@, seq![date]),
        None => tagged,
    }
}

/// What the cache does with the request `req` when its store holds
/// `cached` for it, at the time `now`; nothing where it refuses the
/// request.
pub open spec fn planned<M>(
    mode: CacheMode,
    req: RequestView<M>,
    cached: Option<ResponseView>,
    now: u64,
) -> Option<CachePlanView<M>> {
    let mode = effective(mode, req.headers);
    if !consults(mode, req) {
        Some(CachePlanView::Fetch)
    } else {
        match cached {
            None => if mode == CacheMode::OnlyIfCached {
                None
            } else {
                Some(CachePlanView::Fetch)
            },
            Some(stored) => {
                let chosen = ResponseView {
                    headers: without_stale_warnings(stored.headers),
                    ..stored
                };
                if mode == CacheMode::Default && fresh(chosen.headers, now) {
                    Some(CachePlanView::Serve(chosen))
                } else if mode == CacheMode::Default || mode == CacheMode::NoCache {
                    Some(
                        CachePlanView::Revalidate {
                            conditional: RequestView {
                                headers: with_validators(req.headers, chosen.headers),
                                ..req.bare()
                            },
                            cached: chosen,
                        },
                    )
                } else {
                    Some(
                        CachePlanView::Serve(
                            ResponseView { headers: disconnected(chosen.headers), ..chosen },
                        ),
                    )
                }
            },
        }
    }
}

/// Whether the cache can do what it does with the request without writing
/// a header: it goes to the network, or it serves a fresh response that has
/// no stale warnings to lose. Where a header has to be written, the headers
/// may refuse it.
pub open spec fn writes_nothing<M>(
    mode: CacheMode,
    req: RequestView<M>,
    cached: Option<ResponseView>,
    now: u64,
) -> bool {
    match planned(mode, req, cached, now) {
        None => false,
        Some(CachePlanView::Fetch) => true,
        Some(CachePlanView::Revalidate { .. }) => false,
        Some(CachePlanView::Serve(_)) => effective(mode, req.headers) == CacheMode::Default
            && cached is Some && retained(values_of(cached->Some_0.headers, "warning"@))
            == values_of(cached->Some_0.headers, "warning"@),
    }
}

/// Whether the headers of the request and of the stored response take for
/// certain what the cache may have to write: the two validators into the
/// request, and a warning into the response.
pub open spec fn room_to_plan<M>(req: RequestView<M>, cached: Option<ResponseView>) -> bool {
    &&& room_for(req.headers, 1)
    &&& cached matches Some(stored) ==> has_room(stored.headers)
}

/// What a stored response is, if there is one.
pub open spec fn stored_view(cached: Option<Response>) -> Option<ResponseView> {
    match cached {
        Some(res) => Some(res@),
        None => None,
    }
}

/// The names of the headers of a conditional request are header names in
/// canonical form.
pub proof fn lemma_validator_names()
    ensures
        valid_name("if-none-match"@) && canonical_name("if-none-match"@) == "if-none-match"@,
        valid_name("if-modified-since"@) && canonical_name("if-modified-since"@)
            == "if-modified-since"@,
{
    reveal_strlit("if-none-match");
    reveal_strlit("if-modified-since");
}

/// The text of the warning 112 is a header value.
pub proof fn lemma_disconnected_text()
    ensures
        valid_value("Disconnected operation".spec_bytes()),
{
    reveal_strlit("Disconnected operation");
    vstd::string::is_ascii_spec_bytes("Disconnected operation");
}

impl Cacache {
    /// A cache with the given mode, whose store is at `path`.
    pub fn new(mode: CacheMode, path: String) -> (cache: Self)
        ensures
            cache.spec_mode() == mode,
            cache.spec_path() == path@,
    {
        Cacache { mode, path }
    }

    /// The cache mode.
    pub closed spec fn spec_mode(&self) -> CacheMode {
        self.mode
    }

    /// The place of the store.
    pub closed spec fn spec_path(&self) -> Seq<char> {
        self.path@
    }

    /// The cache mode.
    pub fn mode(&self) -> (mode: CacheMode)
        ensures
            mode == self.spec_mode(),
    {
        self.mode
    }

    /// The place of the store.
    pub fn path(&self) -> (path: &str)
        ensures
            path@ == self.spec_path(),
    {
        self.path.as_str()
    }

    /// The mode that holds for the request `req`.
    pub fn effective_mode<M>(&self, req: &Request<M>) -> (mode: CacheMode)
        ensures
            mode == effective(self.spec_mode(), req@.headers),
    {
        if has_cond_header(req.headers()) {
            CacheMode::NoStore
        } else {
            self.mode
        }
    }

    /// Whether the store is asked for a response to the request.
    pub fn request_cacheable<M>(&self, req: &Request<M>) -> (yes: bool)
        ensures
            yes == consults(self.spec_mode(), req@),
    {
        let mode = self.effective_mode(req);
        req.method().is_cacheable() && mode != CacheMode::NoStore && mode != CacheMode::Reload
    }

    /// Whether the response `res` to the request `req` may be stored.
    pub fn response_cacheable<M>(&self, req: &Request<M>, res: &Response) -> (yes: bool)
        ensures
            yes == storable(req@.method, res@),
    {
        res.status().is_success() && req.method().is_cacheable() && cache_directive_of(
            res.headers(),
            "no-store".as_bytes(),
        ).is_none()
    }

    /// Whether the stored response `res` has to be checked with the server
    /// before it is served at the time `now`, given in seconds since the
    /// start of 1970.
    pub fn is_stale(&self, res: &Response, now: u64) -> (yes: bool)
        ensures
            yes == !fresh(res@.headers, now),
    {
        !is_fresh(res.headers(), now)
    }

    /// Adds a `Warning` with the given code and text to a response. The
    /// code has three digits.
    pub fn set_warning(&self, res: &mut Response, code: u16, msg: &str) -> (outcome: Result<(), HeaderError>)
        ensures
            !(100 <= code <= 999) ==> outcome matches Err(HeaderError::InvalidValue),
            !valid_value(msg.spec_bytes()) ==> outcome matches Err(HeaderError::InvalidValue),
            100 <= code <= 999 && valid_value(msg.spec_bytes()) && has_room(old(res)@.headers)
                ==> outcome is Ok,
            outcome is Err ==> final(res)@ == old(res)@,
            outcome is Ok ==> final(res)@ == (ResponseView {
                headers: old(res)@.headers.insert(
                    "warning"@,
                    values_of(old(res)@.headers, "warning"@).push(
                        warning_value(code, msg.spec_bytes()),
                    ),
                ),
                ..old(res)@
            }),
    {
        proof {
            lemma_cache_names();
        }
        if code < 100 || code > 999 {
            return Err(HeaderError::InvalidValue);
        }
        let mut value: Vec<u8> = Vec::new();
        value.push((48 + code / 100) as u8);
        value.push((48 + (code / 10) % 10) as u8);
        value.push((48 + code % 10) as u8);
        value.push(32u8);
        value.push(45u8);
        value.push(32u8);
        value.push(34u8);
        let text = msg.as_bytes();
        let mut i: usize = 0;
        let ghost head = value@;
        while i < text.len()
            invariant
                i <= text.len(),
                value@ == head + text@.subrange(0, i as int),
            decreases text.len() - i,
        {
            value.push(text[i]);
            i += 1;
        }
        value.push(34u8);
        assert(value@ =~= warning_value(code, msg.spec_bytes()));
        proof {
            lemma_warning_value(code, msg.spec_bytes());
        }
        res.append_header("warning", value.as_slice())
    }

    /// The key to look up in the store before `send`, if the store is to be
    /// asked at all.
    pub fn handle<M>(&self, req: &Request<M>) -> (key: Option<String>)
        ensures
            key is Some <==> consults(self.spec_mode(), req@),
            key matches Some(k) ==> k@ == key_of(req@.method, req@.url),
    {
        if self.request_cacheable(req) {
            Some(cache_key(req))
        } else {
            None
        }
    }

    /// The request that goes to the network when the cache fetches: the
    /// request with its body, without its middleware and its extensions,
    /// which stay behind. The body is taken out of `req`.
    pub fn remote_request<M>(req: &mut Request<M>) -> (remote: Request<M>)
        ensures
            remote@ == (RequestView { body: old(req)@.body, ..old(req)@.bare() }),
            final(req)@ == (RequestView { body: Seq::empty(), ..old(req)@ }),
    {
        let mut remote = req.probe();
        remote.set_body(req.take_body());
        remote
    }

    /// The key of the entry that is to leave the store when the stored
    /// response to the request `req` is deleted.
    pub fn delete<M>(&self, req: &Request<M>) -> (key: String)
        ensures
            key@ == key_of(req@.method, req@.url),
    {
        cache_key(req)
    }

    /// The request that asks the server whether `cached` still holds.
    pub fn conditional_request<M>(req: &Request<M>, cached: &Response) -> (conditional: Result<Request<M>, HeaderError>)
        ensures
            conditional matches Ok(c) ==> c@ == (RequestView {
                headers: with_validators(req@.headers, cached@.headers),
                ..req@.bare()
            }),
            header_value(cached@.headers, "etag"@) is None && header_value(
                cached@.headers,
                "last-modified"@,
            ) is None ==> conditional is Ok,
            room_for(req@.headers, 1) ==> conditional is Ok,
    {
        proof {
            lemma_cache_names();
            lemma_validator_names();
        }
        let mut conditional = req.probe();
        match first_value(cached.headers(), "etag") {
            Some(tag) => {
                match conditional.set_header("if-none-match", tag.as_slice()) {
                    Ok(_) => {},
                    Err(e) => {
                        return Err(e);
                    },
                }
            },
            None => {},
        }
        match first_value(cached.headers(), "last-modified") {
            Some(date) => {
                match conditional.set_header("if-modified-since", date.as_slice()) {
                    Ok(_) => {},
                    Err(e) => {
                        return Err(e);
                    },
                }
            },
            None => {},
        }
        Ok(conditional)
    }

    /// Decides what to do with the request `req`, for which the store holds
    /// `cached`, at the time `now`, given in seconds since the start of
    /// 1970. The store need not be asked for a request for which `handle`
    /// names no key.
    pub fn send<M>(&self, req: &Request<M>, cached: Option<Response>, now: u64) -> (plan: Result<CachePlan<M>, Error>)
        ensures
            plan matches Ok(p) ==> planned(self.spec_mode(), req@, stored_view(cached), now)
                == Some(p@),
            plan matches Err(e) ==> (e matches Error::OnlyIfCached || e matches Error::Header(_)),
            plan matches Err(Error::OnlyIfCached) <==> planned(
                self.spec_mode(),
                req@,
                stored_view(cached),
                now,
            ) is None,
            writes_nothing(self.spec_mode(), req@, stored_view(cached), now) ==> plan is Ok,
            room_to_plan(req@, stored_view(cached)) && planned(
                self.spec_mode(),
                req@,
                stored_view(cached),
                now,
            ) is Some ==> plan is Ok,
    {
        proof {
            lemma_cache_names();
            lemma_disconnected_text();
        }
        if !self.request_cacheable(req) {
            return Ok(CachePlan::Fetch);
        }
        let mode = self.effective_mode(req);
        let mut res = match cached {
            Some(res) => res,
            None => {
                if mode == CacheMode::OnlyIfCached {
                    return Err(Error::OnlyIfCached);
                } else {
                    return Ok(CachePlan::Fetch);
                }
            },
        };
        match strip_warnings(&mut res) {
            Ok(_) => {},
            Err(e) => {
                return Err(Error::Header(e));
            },
        }
        if mode == CacheMode::Default && !self.is_stale(&res, now) {
            return Ok(CachePlan::Serve(res));
        }
        if mode == CacheMode::Default || mode == CacheMode::NoCache {
            match Cacache::conditional_request(req, &res) {
                Ok(conditional) => Ok(CachePlan::Revalidate { conditional, cached: res }),
                Err(e) => Err(Error::Header(e)),
            }
        } else {
            match self.set_warning(&mut res, 112, "Disconnected operation") {
                Ok(_) => Ok(CachePlan::Serve(res)),
                Err(e) => Err(Error::Header(e)),
            }
        }
    }

    /// Decides what to do with the response `res` that the network gave to
    /// the request `req`: it goes to the caller as it is, and into the store
    /// if it may be stored.
    pub fn fetched<M>(&self, req: &Request<M>, res: Response) -> (outcome: CacheOutcome)
        ensures
            outcome.response@ == res@,
            outcome.store is Some <==> store_key(self.spec_mode(), req@, res@) is Some,
            outcome.store matches Some(k) ==> store_key(self.spec_mode(), req@, res@) == Some(k@),
    {
        let mode = self.effective_mode(req);
        let store = if mode != CacheMode::NoStore && self.response_cacheable(req, &res) {
            Some(cache_key(req))
        } else {
            None
        };
        CacheOutcome { response: res, store }
    }
}

/// What the store keeps of a response: the status code and the headers,
/// which it keeps as a small document, and the body, which it keeps by its
/// content.
#[derive(Debug)]
pub struct CacheEntry {
    /// The status code.
    pub status: u64,
    /// The headers, each as a pair of its name and one value.
    pub headers: Vec<(String, Vec<u8>)>,
    /// The body.
    pub body: Vec<u8>,
}

/// The response that a stored entry stands for.
pub open spec fn entry_response(entry: CacheEntry) -> ResponseView {
    ResponseView {
        status: StatusCode { code: entry.status as u16 },
        version: crate::message::Version::Http1_1,
        headers: crate::headers::entries_of(crate::headers::pair_views(entry.headers@)),
        body: entry.body@,
        ext: Map::empty(),
    }
}

/// Whether an entry can be read back for certain: its status code is one,
/// its headers are names with values, and they are few enough.
pub open spec fn readable(entry: CacheEntry) -> bool {
    &&& entry.status <= 65535
    &&& crate::headers::valid_pairs(crate::headers::pair_views(entry.headers@))
    &&& has_room(crate::headers::entries_of(crate::headers::pair_views(entry.headers@)))
}

/// The response that is served when the server has answered `res` to the
/// question whether `cached` still holds: `cached` with the headers that
/// the answer brings, where the answer is 304; else the answer itself.
pub open spec fn revalidated_response(cached: ResponseView, res: ResponseView) -> ResponseView {
    if res.status.code == 304 {
        ResponseView { headers: cached.headers.union_prefer_right(res.headers), ..cached }
    } else {
        res
    }
}

impl Cacache {
    /// Decides what to do with the answer `res` of the server to the
    /// question whether `cached` still holds. An answer 304 brings the
    /// stored response up to date, which is then served and stored again;
    /// any other answer takes its place, as in `fetched`.
    pub fn revalidated<M>(&self, req: &Request<M>, cached: Response, res: Response) -> (outcome: Result<CacheOutcome, HeaderError>)
        ensures
            res@.status.code != 304 ==> outcome is Ok,
            room_for(cached@.headers, res@.headers.dom().len()) ==> outcome is Ok,
            outcome matches Ok(o) ==> {
                &&& o.response@ == revalidated_response(cached@, res@)
                &&& res@.status.code != 304 ==> (o.store is Some <==> store_key(
                    self.spec_mode(),
                    req@,
                    res@,
                ) is Some)
                &&& res@.status.code == 304 ==> (o.store is Some <==> effective(
                    self.spec_mode(),
                    req@.headers,
                ) != CacheMode::NoStore)
                &&& o.store matches Some(k) ==> k@ == key_of(req@.method, req@.url)
            },
    {
        if res.status().as_u16() != 304 {
            return Ok(self.fetched(req, res));
        }
        let mut merged = cached.clone_without_body();
        let mut cached = cached;
        match merged.update_headers(res.headers()) {
            Ok(_) => {},
            Err(e) => {
                return Err(e);
            },
        }
        merged.set_body(Body::from_bytes(cached.body_bytes()));
        let store = if self.effective_mode(req) != CacheMode::NoStore {
            Some(cache_key(req))
        } else {
            None
        };
        Ok(CacheOutcome { response: merged, store })
    }

    /// Rebuilds the response that a stored entry stands for. An entry whose
    /// status code is no status code is corrupt; so is one whose headers are
    /// no headers.
    pub fn matched(&self, entry: CacheEntry) -> (found: Result<Response, Error>)
        ensures
            found matches Err(Error::CorruptCacheEntry) <==> entry.status > 65535,
            found matches Ok(res) ==> entry.status <= 65535 && res@ == entry_response(entry),
            found matches Err(e) ==> (e matches Error::CorruptCacheEntry || e matches Error::Header(
                _,
            )),
            found is Ok ==> crate::headers::valid_pairs(crate::headers::pair_views(entry.headers@)),
            readable(entry) ==> found is Ok,
    {
        if entry.status > 65535 {
            return Err(Error::CorruptCacheEntry);
        }
        let mut res = Response::new(StatusCode::new(entry.status as u16));
        let ghost all = crate::headers::pair_views(entry.headers@);
        let mut i: usize = 0;
        while i < entry.headers.len()
            invariant
                i <= entry.headers.len(),
                entry.status <= 65535,
                all == crate::headers::pair_views(entry.headers@),
                crate::headers::valid_pairs(all.subrange(0, i as int)),
                res@ == (ResponseView {
                    status: StatusCode { code: entry.status as u16 },
                    version: crate::message::Version::Http1_1,
                    headers: crate::headers::entries_of(all.subrange(0, i as int)),
                    body: Seq::empty(),
                    ext: Map::empty(),
                }),
            decreases entry.headers.len() - i,
        {
            let ghost before = all.subrange(0, i as int);
            let ghost after = all.subrange(0, i + 1);
            assert(after.drop_last() =~= before);
            proof {
                crate::headers::lemma_entries_prefix(all, i as int);
                vstd::set_lib::lemma_len_subset(
                    crate::headers::entries_of(before).dom(),
                    crate::headers::entries_of(all).dom(),
                );
                if readable(entry) {
                    assert(valid_name(all[i as int].0) && valid_value(all[i as int].1));
                }
            }
            match res.append_header(entry.headers[i].0.as_str(), entry.headers[i].1.as_slice()) {
                Ok(_) => {},
                Err(e) => {
                    return Err(Error::Header(e));
                },
            }
            proof {
                assert forall|k: int| 0 <= k < after.len() implies valid_name(
                    (#[trigger] after[k]).0,
                ) && valid_value(after[k].1) by {
                    if k < i {
                        assert(after[k] == before[k]);
                    }
                }
            }
            i += 1;
        }
        assert(all.subrange(0, all.len() as int) =~= all);
        res.set_body(Body::from_bytes(entry.body));
        Ok(res)
    }

    /// Says what to write into the store for the response `res` to the
    /// request `req`: the key, and the entry that stands for the response.
    pub fn put<M>(&self, req: &Request<M>, res: &Response) -> (written: (String, CacheEntry))
        ensures
            written.0@ == key_of(req@.method, req@.url),
            written.1.status == res@.status.code,
            entry_response(written.1) == (ResponseView {
                version: crate::message::Version::Http1_1,
                ext: Map::empty(),
                ..res@
            }),
            has_room(res@.headers) ==> readable(written.1),
    {
        let entry = CacheEntry {
            status: res.status().as_u16() as u64,
            headers: res.headers().iter(),
            body: res.body().duplicate().into_bytes(),
        };
        (cache_key(req), entry)
    }
}

/// What is stored comes back: a `GET` or `HEAD` without conditions, whose
/// response from the network may be stored, has it stored under the key of
/// its method and URL; a later request with the same method for the same URL
/// looks under the same key, and, in the mode `Default`, is served what was
/// stored, without its stale warnings and without the network, for as long
/// as that is fresh. In the mode `Reload` the store is not even asked, and
/// the request goes to the network.
pub proof fn stored_is_served<M>(
    first: RequestView<M>,
    second: RequestView<M>,
    res: ResponseView,
    in_store: Option<ResponseView>,
    now: u64,
)
    requires
        first.url == second.url,
        first.method == second.method,
        first.method.cacheable(),
        !conditional(first.headers),
        !conditional(second.headers),
        storable(first.method, res),
    ensures
        store_key(CacheMode::Default, first, res) == Some(key_of(second.method, second.url)),
        consults(CacheMode::Default, second),
        fresh(without_stale_warnings(res.headers), now) ==> planned(
            CacheMode::Default,
            second,
            Some(res),
            now,
        ) == Some(
            CachePlanView::<M>::Serve(
                ResponseView { headers: without_stale_warnings(res.headers), ..res },
            ),
        ),
        !consults(CacheMode::Reload, second),
        planned(CacheMode::Reload, second, in_store, now) == Some(CachePlanView::<M>::Fetch),
{
}

/// A fresh hit is the stored response, as it is: in the mode `Default`, a
/// `GET` or `HEAD` without conditions for which the store holds a fresh
/// response without a stale warning is served exactly that response.
pub proof fn fresh_hit_is_exact<M>(req: RequestView<M>, stored: ResponseView, now: u64)
    requires
        req.method.cacheable(),
        !conditional(req.headers),
        fresh(stored.headers, now),
        retained(values_of(stored.headers, "warning"@)) == values_of(stored.headers, "warning"@),
        has_name(stored.headers, "warning"@) ==> values_of(stored.headers, "warning"@).len() > 0,
    ensures
        planned(CacheMode::Default, req, Some(stored), now) == Some(
            CachePlanView::<M>::Serve(stored),
        ),
{
    lemma_cache_names();
    if has_name(stored.headers, "warning"@) {
        assert(stored.headers.insert("warning"@, values_of(stored.headers, "warning"@))
            =~= stored.headers);
    } else {
        assert(stored.headers.remove("warning"@) =~= stored.headers);
    }
}

/// A stored response that is checked with the server and found to hold is
/// served without stale warnings: where the answer 304 brings no warning of
/// warn-code 1xx, the served response has none, and its body is the stored
/// one. Where the answer brings no warning at all, the warnings of the
/// served response are those of the stored one without the ones of
/// warn-code 1xx.
pub proof fn revalidation_strips_stale_warnings<M>(
    mode: CacheMode,
    req: RequestView<M>,
    stored: ResponseView,
    answer: ResponseView,
    now: u64,
)
    requires
        planned(mode, req, Some(stored), now) is Some,
        planned(mode, req, Some(stored), now)->Some_0 is Revalidate,
        answer.status.code == 304,
        forall|i: int|
            0 <= i < values_of(answer.headers, "warning"@).len() ==> !stale_warning(
                #[trigger] values_of(answer.headers, "warning"@)[i],
            ),
    ensures
        forall|i: int|
            0 <= i < values_of(
                revalidated_response(
                    planned(mode, req, Some(stored), now)->Some_0->cached,
                    answer,
                ).headers,
                "warning"@,
            ).len() ==> !stale_warning(
                #[trigger] values_of(
                    revalidated_response(
                        planned(mode, req, Some(stored), now)->Some_0->cached,
                        answer,
                    ).headers,
                    "warning"@,
                )[i],
            ),
        revalidated_response(planned(mode, req, Some(stored), now)->Some_0->cached, answer).body
            == stored.body,
        !answer.headers.contains_key("warning"@) ==> values_of(
            revalidated_response(
                planned(mode, req, Some(stored), now)->Some_0->cached,
                answer,
            ).headers,
            "warning"@,
        ) == retained(values_of(stored.headers, "warning"@)),
{
    lemma_cache_names();
    lemma_retained(values_of(stored.headers, "warning"@));
    let cached = planned(mode, req, Some(stored), now)->Some_0->cached;
    let served = revalidated_response(cached, answer);
    assert(cached.headers == without_stale_warnings(stored.headers));
    if answer.headers.contains_key("warning"@) {
        assert(values_of(served.headers, "warning"@) == values_of(answer.headers, "warning"@));
    } else if cached.headers.contains_key("warning"@) {
        assert(values_of(served.headers, "warning"@) == retained(
            values_of(stored.headers, "warning"@),
        ));
    } else {
        assert(!served.headers.contains_key("warning"@));
    }
}

/// With nothing stored, the mode `OnlyIfCached` refuses a request that it
/// would else have served from the store.
pub proof fn only_if_cached_miss<M>(req: RequestView<M>, now: u64)
    requires
        req.method.cacheable(),
        !conditional(req.headers),
    ensures
        planned(CacheMode::OnlyIfCached, req, None, now) is None,
{
}

} // verus!
