//! Replies of the proxy resolvers of Unix desktops.
//!
//! Both the resolver of Gio and the proxy portal of Freedesktop answer a
//! lookup with a list of proxies to try in turn, in which `direct://`
//! stands for a direct connection.  This module reads such a reply; asking
//! the service is left to the caller.

use vstd::prelude::*;
use crate::text::str_equal;
use crate::uri::{parsed, InvalidUrl, Url, UrlModel};

verus! {

/// A reply that names a proxy which is no URL.
#[derive(Debug, PartialEq, Eq)]
pub struct InvalidProxy {
    /// The proxy as the reply names it.
    pub proxy: String,
    /// Why it is no URL.
    pub error: InvalidUrl,
}

/// What a reply means: a direct connection where the reply is empty or
/// starts with `direct://`, else the proxy that it names first.  A first
/// entry that is no URL is an error, which holds that entry.
pub open spec fn reply_model(proxies: Seq<Seq<char>>) -> Result<Option<UrlModel>, Seq<char>> {
    if proxies.len() == 0 || proxies[0] == "direct://"@ {
        Ok(None)
    } else {
        match parsed(proxies[0]) {
            Some(proxy) => Ok(Some(proxy)),
            None => Err(proxies[0]),
        }
    }
}

/// Reads the reply of a resolver: the proxy to use, or `None` for a direct
/// connection.  Only the first entry of the reply counts.
pub fn proxy_from_reply(proxies: &Vec<String>) -> (r: Result<Option<Url>, InvalidProxy>)
    ensures
        match r {
            Ok(answer) => reply_model(proxies.deep_view()) == Ok::<
                Option<UrlModel>,
                Seq<char>,
            >(answer.deep_view()),
            Err(invalid) => reply_model(proxies.deep_view()) == Err::<
                Option<UrlModel>,
                Seq<char>,
            >(invalid.proxy@),
        },
{
    if proxies.len() == 0 {
        return Ok(None);
    }
    let first = &proxies[0];
    if str_equal(first.as_str(), "direct://") {
        return Ok(None);
    }
    match Url::parse(first.as_str()) {
        Ok(proxy) => Ok(Some(proxy)),
        Err(error) => Err(InvalidProxy { proxy: first.clone(), error }),
    }
}

} // verus!
