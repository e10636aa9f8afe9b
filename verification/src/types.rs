//! The capability that every resolver offers.

use vstd::prelude::*;
use crate::uri::{Url, UrlModel};

verus! {

/// Resolve proxies.
pub trait ProxyResolver {
    /// Whether `answer` is an answer that this resolver can give for `url`.
    ///
    /// A resolver that asks a service outside of this process admits every
    /// answer that the service can give; this is what holds of a resolver
    /// that says nothing else.
    open spec fn may_answer(&self, url: UrlModel, answer: Option<UrlModel>) -> bool {
        true
    }

    /// Resolve a proxy for the given `url`.
    ///
    /// Return the URL of a HTTP proxy to use for `url` or `None` for a direct
    /// connection to `url`.  A resolver that fails to find out returns `None`
    /// as well.
    fn for_url(&self, url: &Url) -> (r: Option<Url>)
        ensures
            self.may_answer(url@, r.deep_view()),
    ;
}

/// The answer that a failed lookup stands for: a direct connection.
pub open spec fn direct_on_failure_model<E>(reply: Result<Option<Url>, E>) -> Option<Url> {
    match reply {
        Ok(answer) => answer,
        Err(_) => None,
    }
}

/// Turns the outcome of a lookup that can fail into an answer.  A failed
/// lookup never keeps a request from going out: it means a direct
/// connection.
pub fn direct_on_failure<E>(reply: Result<Option<Url>, E>) -> (r: Option<Url>)
    ensures
        r == direct_on_failure_model(reply),
{
    match reply {
        Ok(answer) => answer,
        Err(_) => None,
    }
}

} // verus!
