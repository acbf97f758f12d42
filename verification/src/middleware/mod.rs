//! Middleware: the chain, and the middleware that comes with the library.
//!
//! A chain is an ordered list of middleware with the transport at its end.
//! Middleware that stands earlier in the list wraps the middleware that
//! stands later: it sees the request first and the response last.

pub mod compression;
pub mod logger;
pub mod redirect;

pub use compression::Compression;
pub use logger::Logger;
pub use redirect::Redirect;
use vstd::prelude::*;
use vstd::slice::slice_subrange;

verus! {

/// The remainder of a middleware chain, including the endpoint.
pub struct Next<'a, M> {
    next_middleware: &'a [M],
}

/// Where a request goes next.
pub enum Step<'a, M> {
    /// To the middleware `current`, which gets `next` to pass the request on.
    Middleware { current: &'a M, next: Next<'a, M> },
    /// To the transport: no middleware is left.
    Endpoint,
}

impl<'a, M> View for Next<'a, M> {
    type V = Seq<M>;

    closed spec fn view(&self) -> Seq<M> {
        self.next_middleware@
    }
}

impl<'a, M> Clone for Next<'a, M> {
    fn clone(&self) -> (copy: Self)
        ensures
            copy@ == self@,
    {
        Next { next_middleware: self.next_middleware }
    }
}

impl<'a, M> Copy for Next<'a, M> {

}

impl<'a, M> Next<'a, M> {
    /// Create a new instance: the chain of the given middleware, outermost
    /// first.
    pub fn new(next: &'a [M]) -> (chain: Self)
        ensures
            chain@ == next@,
    {
        Next { next_middleware: next }
    }

    /// The number of middleware that is left.
    pub fn len(&self) -> (n: usize)
        ensures
            n == self@.len(),
    {
        self.next_middleware.len()
    }

    /// Takes one step down the chain: to the first middleware that is left,
    /// with the chain of those after it; or to the endpoint, when none is
    /// left.
    pub fn run(self) -> (step: Step<'a, M>)
        ensures
            self@.len() == 0 ==> step is Endpoint,
            self@.len() > 0 ==> (step matches Step::Middleware { current, next } && *current
                == self@[0] && next@ == self@.drop_first()),
    {
        let len = self.next_middleware.len();
        if len > 0 {
            let current = &self.next_middleware[0];
            let rest = slice_subrange(self.next_middleware, 1, len);
            Step::Middleware { current, next: Next { next_middleware: rest } }
        } else {
            Step::Endpoint
        }
    }
}

/// One visit on the way of a request through a chain.
pub enum Visit<M> {
    /// This middleware takes the request in.
    Enter(M),
    /// The transport takes the request and gives the response.
    Endpoint,
    /// This middleware takes the response in.
    Leave(M),
}

/// The visits on the way through a chain of middleware each of which passes
/// the request on once: as `run` steps down the chain, the first middleware
/// takes the request in, the rest of the chain is gone through, and the
/// first middleware takes the response in.
pub open spec fn journey<M>(chain: Seq<M>) -> Seq<Visit<M>>
    decreases chain.len(),
{
    if chain.len() == 0 {
        seq![Visit::Endpoint]
    } else {
        seq![Visit::Enter(chain[0])] + journey(chain.drop_first()) + seq![Visit::Leave(chain[0])]
    }
}

/// The shape of the way through a chain of `n` middleware: `2 * n + 1`
/// visits, with the middleware at place `i` entered at the `i`-th of them,
/// counted from the start, and left at the `i`-th, counted from the end.
pub proof fn lemma_journey<M>(chain: Seq<M>, i: int)
    requires
        0 <= i < chain.len(),
    ensures
        journey(chain).len() == 2 * chain.len() + 1,
        journey(chain)[i] == Visit::Enter(chain[i]),
        journey(chain)[chain.len() as int] == Visit::<M>::Endpoint,
        journey(chain)[2 * chain.len() - i] == Visit::Leave(chain[i]),
    decreases chain.len(),
{
    let rest = chain.drop_first();
    lemma_journey_len(rest);
    if i > 0 {
        lemma_journey(rest, i - 1);
    } else if rest.len() > 0 {
        lemma_journey(rest, 0);
    }
}

/// The number of visits on the way through a chain.
pub proof fn lemma_journey_len<M>(chain: Seq<M>)
    ensures
        journey(chain).len() == 2 * chain.len() + 1,
    decreases chain.len(),
{
    if chain.len() > 0 {
        lemma_journey_len(chain.drop_first());
    }
}

/// The onion: on the way through the middleware of a client followed by the
/// middleware of a request, every middleware of the client takes the request
/// in before any middleware of the request does, and takes the response in
/// after it.
pub proof fn chain_order<M>(client: Seq<M>, request: Seq<M>, outer: int, inner: int)
    requires
        0 <= outer < client.len(),
        0 <= inner < request.len(),
    ensures
        journey(client + request)[outer] == Visit::Enter(client[outer]),
        journey(client + request)[client.len() + inner] == Visit::Enter(request[inner]),
        journey(client + request)[2 * (client.len() + request.len()) - (client.len() + inner)]
            == Visit::Leave(request[inner]),
        journey(client + request)[2 * (client.len() + request.len()) - outer] == Visit::Leave(
            client[outer],
        ),
        outer < client.len() + inner < 2 * (client.len() + request.len()) - (client.len() + inner)
            < 2 * (client.len() + request.len()) - outer,
{
    lemma_journey(client + request, outer);
    lemma_journey(client + request, client.len() + inner);
}

/// Of any two middleware in a chain, the one that stands earlier takes the
/// request in first and the response in last.
pub proof fn earlier_wraps_later<M>(chain: Seq<M>, outer: int, inner: int)
    requires
        0 <= outer < inner < chain.len(),
    ensures
        journey(chain)[outer] == Visit::Enter(chain[outer]),
        journey(chain)[inner] == Visit::Enter(chain[inner]),
        journey(chain)[2 * chain.len() - inner] == Visit::Leave(chain[inner]),
        journey(chain)[2 * chain.len() - outer] == Visit::Leave(chain[outer]),
        outer < inner < 2 * chain.len() - inner < 2 * chain.len() - outer,
{
    lemma_journey(chain, outer);
    lemma_journey(chain, inner);
}

} // verus!
