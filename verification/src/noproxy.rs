//! A resolver without a proxy.

use vstd::prelude::*;
use crate::types::ProxyResolver;
use crate::uri::{Url, UrlModel};

verus! {

/// A proxy resolver which never resolves a proxy.
///
/// It stands in for the system resolver where none is at hand; a
/// [`crate::system::SystemProxyResolver`] built on it only resolves proxies
/// from the process environment.
#[derive(Debug, Default)]
pub struct NoProxyResolver;

impl ProxyResolver for NoProxyResolver {
    open spec fn may_answer(&self, url: UrlModel, answer: Option<UrlModel>) -> bool {
        answer is None
    }

    fn for_url(&self, _url: &Url) -> (r: Option<Url>) {
        None
    }
}

} // verus!
