//! HTTP redirect middleware.
//!
//! Before a request goes down the chain, copies of it without a body are
//! sent straight to the transport, to find out where the server wants it.
//! Each answer with one of the status codes 301, 302, 303, 307 and 308 moves
//! the request to the URL in its `Location` header, until an answer is no
//! redirect or the attempts are used up. The request itself then goes down
//! the chain, once.

use crate::error::Error;
use crate::headers::canonical_name;
use crate::headers::valid_name;
use crate::headers::values_of;
use crate::request::Request;
use crate::request::RequestView;
use crate::response::Response;
use crate::response::ResponseView;
use crate::text::text_of;
use crate::text::views;
use crate::url::joined_url;
use vstd::prelude::*;
use vstd::utf8::decode_utf8;
use vstd::utf8::valid_utf8;

verus! {

/// A middleware which attempts to follow HTTP redirects.
#[derive(Clone, Copy, Debug, PartialEq, Eq, Structural)]
pub struct Redirect {
    attempts: u8,
}

/// A request on its way through the redirect middleware.
#[derive(Debug)]
pub struct Following<M> {
    req: Request<M>,
    redirect_count: u8,
}

/// What a request on its way through the redirect middleware is, as
/// mathematics: the request, and the number of copies sent so far.
pub struct FollowingView<M> {
    pub req: RequestView<M>,
    pub redirect_count: nat,
}

impl<M> View for Following<M> {
    type V = FollowingView<M>;

    closed spec fn view(&self) -> FollowingView<M> {
        FollowingView { req: self.req@, redirect_count: self.redirect_count as nat }
    }
}

/// What the middleware wants done next.
#[derive(Debug)]
pub enum RedirectAction<M> {
    /// Send `attempt` straight to the transport, and come back with the
    /// response and `following`.
    Probe { attempt: Request<M>, following: Following<M> },
    /// Hand the request to the rest of the chain, and return what comes back
    /// as it is.
    Forward(Request<M>),
}

/// What the answer to a copy of the request means for the request.
pub enum Answer {
    /// The answer is no redirect.
    Settled,
    /// The answer redirects, but does not say where to.
    Nowhere,
    /// The answer redirects to the URL that is held here.
    Moved(Seq<char>),
    /// The answer redirects to something that is no URL.
    Malformed,
}

/// Reads the answer `res` to a copy of a request for `url`. The target is
/// the last `Location` value, resolved against `url`.
pub open spec fn answer(url: Seq<char>, res: ResponseView) -> Answer {
    let locations = values_of(res.headers, "location"@);
    if !res.status.redirect() {
        Answer::Settled
    } else if locations.len() == 0 {
        Answer::Nowhere
    } else if !valid_utf8(locations.last()) {
        Answer::Malformed
    } else {
        match joined_url(url, decode_utf8(locations.last())) {
            Some(target) => Answer::Moved(target),
            None => Answer::Malformed,
        }
    }
}

/// Where the request stands after an answer.
pub enum Progress {
    /// Another copy is due, for the URL held here; `redirect_count` counts it.
    Probe { url: Seq<char>, redirect_count: nat },
    /// The request goes down the chain, to the URL held here.
    Forward { url: Seq<char> },
    /// The request fails.
    Failed,
}

/// The step that the middleware takes when the copy number `redirect_count`
/// of a request for `url` has been answered by `res`, with `attempts` copies
/// allowed in all.
pub open spec fn progress(attempts: nat, url: Seq<char>, redirect_count: nat, res: ResponseView) -> Progress {
    match answer(url, res) {
        Answer::Settled => Progress::Forward { url },
        Answer::Malformed => Progress::Failed,
        Answer::Nowhere => if redirect_count < attempts {
            Progress::Probe { url, redirect_count: redirect_count + 1 }
        } else {
            Progress::Forward { url }
        },
        Answer::Moved(target) => if redirect_count < attempts {
            Progress::Probe { url: target, redirect_count: redirect_count + 1 }
        } else {
            Progress::Forward { url: target }
        },
    }
}

/// How a request for `url` ends when the copies are answered by `responses`
/// in turn, `redirect_count` copies having been sent so far: the number of
/// answers used, and the URL that goes down the chain, if any does.
pub open spec fn outcome(
    attempts: nat,
    url: Seq<char>,
    redirect_count: nat,
    responses: Seq<ResponseView>,
) -> (nat, Option<Seq<char>>)
    decreases responses.len(),
{
    if responses.len() == 0 {
        (0, Some(url))
    } else {
        match progress(attempts, url, redirect_count, responses[0]) {
            Progress::Failed => (1, None),
            Progress::Forward { url: target } => (1, Some(target)),
            Progress::Probe { url: target, redirect_count: next } => {
                let rest = outcome(attempts, target, next, responses.drop_first());
                (1 + rest.0, rest.1)
            },
        }
    }
}

/// The bound on redirects: when every answer is a redirect and none of them
/// points to something that is no URL, a middleware with `attempts` attempts
/// follows exactly `attempts` of them, and then sends the request down the
/// chain.
pub proof fn redirect_bound(attempts: nat, url: Seq<char>, responses: Seq<ResponseView>)
    requires
        attempts >= 1,
        responses.len() >= attempts,
        forall|i: int| 0 <= i < responses.len() ==> (#[trigger] responses[i]).status.redirect(),
        outcome(attempts, url, 1, responses).1 is Some,
    ensures
        outcome(attempts, url, 1, responses).0 == attempts,
{
    lemma_redirect_bound(attempts, url, 1, responses);
}

/// Whatever the answers are, no more copies are sent than there are
/// attempts.
pub proof fn redirect_limit(
    attempts: nat,
    url: Seq<char>,
    redirect_count: nat,
    responses: Seq<ResponseView>,
)
    requires
        1 <= redirect_count <= attempts,
    ensures
        outcome(attempts, url, redirect_count, responses).0 <= attempts - redirect_count + 1,
    decreases responses.len(),
{
    if responses.len() > 0 {
        match progress(attempts, url, redirect_count, responses[0]) {
            Progress::Probe { url: target, redirect_count: next } => {
                redirect_limit(attempts, target, next, responses.drop_first());
            },
            _ => {},
        }
    }
}

/// The same bound, for a request of which `redirect_count` copies have been
/// sent already.
pub proof fn lemma_redirect_bound(
    attempts: nat,
    url: Seq<char>,
    redirect_count: nat,
    responses: Seq<ResponseView>,
)
    requires
        1 <= redirect_count <= attempts,
        responses.len() >= attempts - redirect_count + 1,
        forall|i: int| 0 <= i < responses.len() ==> (#[trigger] responses[i]).status.redirect(),
        outcome(attempts, url, redirect_count, responses).1 is Some,
    ensures
        outcome(attempts, url, redirect_count, responses).0 == attempts - redirect_count + 1,
    decreases responses.len(),
{
    match progress(attempts, url, redirect_count, responses[0]) {
        Progress::Probe { url: target, redirect_count: next } => {
            lemma_redirect_bound(attempts, target, next, responses.drop_first());
        },
        _ => {},
    }
}

/// Create a new instance of the redirect middleware, which follows up to
/// three redirects.
pub fn new() -> (redirect: Redirect)
    ensures
        redirect.attempts() == 3,
{
    Redirect { attempts: 3 }
}

/// `location` is a header name in canonical form.
pub proof fn lemma_location_name()
    ensures
        valid_name("location"@),
        canonical_name("location"@) == "location"@,
{
    reveal_strlit("location");
}

impl Redirect {
    /// Create a new instance of the redirect middleware, which attempts to
    /// follow redirects up to as many times as specified.
    pub fn new(attempts: u8) -> (redirect: Self)
        ensures
            redirect.attempts() == attempts,
    {
        Redirect { attempts }
    }

    /// The number of redirects that this middleware follows.
    pub closed spec fn attempts(&self) -> nat {
        self.attempts as nat
    }

    /// The number of redirects that this middleware follows.
    pub fn max_attempts(&self) -> (n: u8)
        ensures
            n == self.attempts(),
    {
        self.attempts
    }

    /// Takes a request in: asks for a first copy to be sent, or, with no
    /// attempts at all, hands the request on at once.
    pub fn handle<M>(&self, req: Request<M>) -> (action: RedirectAction<M>)
        ensures
            self.attempts() == 0 ==> (action matches RedirectAction::Forward(r) && r@ == req@),
            self.attempts() > 0 ==> (action matches RedirectAction::Probe { attempt, following }
                && following@ == (FollowingView { req: req@, redirect_count: 1 }) && attempt@
                == req@.bare()),
    {
        if self.attempts == 0 {
            RedirectAction::Forward(req)
        } else {
            let attempt = req.probe();
            RedirectAction::Probe { attempt, following: Following { req, redirect_count: 1 } }
        }
    }

    /// Takes the answer to a copy in, and says what to do next: send another
    /// copy, to the new URL; hand the request on, to the URL where the last
    /// followed redirect pointed; or fail, where the answer points nowhere
    /// that can be parsed.
    pub fn probed<M>(&self, following: Following<M>, res: &Response) -> (action: Result<RedirectAction<M>, Error>)
        ensures
            match progress(self.attempts(), following@.req.url, following@.redirect_count, res@) {
                Progress::Failed => action matches Err(Error::Location(_)),
                Progress::Forward { url } => action matches Ok(RedirectAction::Forward(r)) && r@
                    == (RequestView { url, ..following@.req }),
                Progress::Probe { url, redirect_count } => action matches Ok(
                    RedirectAction::Probe { attempt, following: next },
                ) && next@ == (FollowingView {
                    req: RequestView { url, ..following@.req },
                    redirect_count,
                }) && attempt@ == (RequestView { url, ..following@.req }).bare(),
            },
    {
        proof {
            lemma_location_name();
        }
        let Following { req, redirect_count } = following;
        let mut req = req;
        if !res.status().is_redirect() {
            return Ok(RedirectAction::Forward(req));
        }
        let locations = res.headers().get_all("location");
        if locations.len() > 0 {
            let last = &locations[locations.len() - 1];
            let target = match text_of(last.as_slice()) {
                Some(text) => req.url().join(text.as_str()),
                None => Err(Error::Url(String::from_str("the location is not text"))),
            };
            match target {
                Ok(url) => {
                    req.set_url(url);
                },
                Err(Error::Url(message)) => {
                    return Err(Error::Location(message));
                },
                Err(e) => {
                    return Err(e);
                },
            }
        }
        if redirect_count < self.attempts {
            let attempt = req.probe();
            Ok(
                RedirectAction::Probe {
                    attempt,
                    following: Following { req, redirect_count: redirect_count + 1 },
                },
            )
        } else {
            Ok(RedirectAction::Forward(req))
        }
    }
}

impl Default for Redirect {
    /// The redirect middleware that follows up to three redirects.
    fn default() -> (redirect: Self)
        ensures
            redirect.attempts() == 3,
    {
        Redirect { attempts: 3 }
    }
}

} // verus!
