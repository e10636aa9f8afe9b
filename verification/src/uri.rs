//! URLs, as far as proxy resolution reads them.
//!
//! Deciding on a proxy looks at two parts of a URL: its scheme and its host.
//! [`Url`] holds these as plain text next to the URL's full serialization,
//! which is what a resolver hands back as the address of a proxy.  Parsing is
//! left to the `url` crate.

use vstd::prelude::*;

verus! {

/// The error type of the `url` crate's parser.  Nothing is known of its
/// values here; they are carried through to the caller.
#[verifier::external_type_specification]
#[verifier::external_body]
pub struct ExParseError(url::ParseError);

/// The mathematical model of a [`Host`].
pub enum HostModel {
    /// A domain name.
    Domain(Seq<char>),
    /// An IPv4 address, in dotted-decimal form.
    Ipv4(Seq<char>),
    /// An IPv6 address, in its canonical textual form without brackets.
    Ipv6(Seq<char>),
}

/// The mathematical model of a [`Url`].
pub struct UrlModel {
    /// The whole URL.
    pub text: Seq<char>,
    /// The scheme, without the colon.
    pub scheme: Seq<char>,
    /// The host, if the URL has one.
    pub host: Option<HostModel>,
}

/// The host of a URL.
#[derive(Debug, PartialEq, Eq)]
pub enum Host {
    /// A domain name.
    Domain(String),
    /// An IPv4 address, held in dotted-decimal form.
    Ipv4(String),
    /// An IPv6 address, held in its canonical textual form, without the
    /// brackets that surround it in a URL.
    Ipv6(String),
}

impl View for Host {
    type V = HostModel;

    open spec fn view(&self) -> HostModel {
        match *self {
            Host::Domain(name) => HostModel::Domain(name@),
            Host::Ipv4(address) => HostModel::Ipv4(address@),
            Host::Ipv6(address) => HostModel::Ipv6(address@),
        }
    }
}

impl DeepView for Host {
    type V = HostModel;

    open spec fn deep_view(&self) -> HostModel {
        self@
    }
}

impl Clone for Host {
    fn clone(&self) -> (r: Self)
        ensures
            r == *self,
    {
        match self {
            Host::Domain(name) => Host::Domain(name.clone()),
            Host::Ipv4(address) => Host::Ipv4(address.clone()),
            Host::Ipv6(address) => Host::Ipv6(address.clone()),
        }
    }
}

/// A parsed URL.
///
/// A value holds the three parts as they were read.  Nothing here relates
/// them to each other: a resolver reads the scheme and the host of the URL
/// that it is asked about, and hands back the text of a proxy.
#[derive(Debug, PartialEq, Eq)]
pub struct Url {
    /// The serialization of the whole URL.
    pub text: String,
    /// The scheme, lower-cased and without the colon.
    pub scheme: String,
    /// The host; `None` for a URL without one.
    pub host: Option<Host>,
}

impl View for Url {
    type V = UrlModel;

    open spec fn view(&self) -> UrlModel {
        UrlModel { text: self.text@, scheme: self.scheme@, host: self.host.deep_view() }
    }
}

impl DeepView for Url {
    type V = UrlModel;

    open spec fn deep_view(&self) -> UrlModel {
        self@
    }
}

impl Clone for Url {
    fn clone(&self) -> (r: Self)
        ensures
            r == *self,
    {
        let host = match &self.host {
            Some(host) => Some(host.clone()),
            None => None,
        };
        Url { text: self.text.clone(), scheme: self.scheme.clone(), host }
    }
}

/// Why a text is no URL.
#[derive(Debug, PartialEq, Eq)]
pub struct InvalidUrl {
    /// What the parser of the `url` crate reported.
    pub cause: url::ParseError,
}

/// The URL that the `url` crate reads from `input`, or `None` where it
/// refuses `input`.
pub uninterp spec fn parsed(input: Seq<char>) -> Option<UrlModel>;

/// Calls `url::Url::parse` and copies out of the result what `Url::as_str`,
/// `Url::scheme` and `Url::host` return, with an IP address rendered by its
/// `Display` impl.
///
/// The contract claims only that all of this depends on `input` alone: the
/// outcome is `parsed` of the characters of `input`.
#[verifier::external_body]
fn parse_with_url_crate(input: &str) -> (r: Result<Url, url::ParseError>)
    ensures
        match r {
            Ok(u) => parsed(input@) == Some(u@),
            Err(_) => parsed(input@) is None,
        },
{
    let u = url::Url::parse(input)?;
    let host = match u.host() {
        None => None,
        Some(url::Host::Domain(name)) => Some(Host::Domain(name.to_owned())),
        Some(url::Host::Ipv4(address)) => Some(Host::Ipv4(address.to_string())),
        Some(url::Host::Ipv6(address)) => Some(Host::Ipv6(address.to_string())),
    };
    Ok(Url { text: u.as_str().to_owned(), scheme: u.scheme().to_owned(), host })
}

impl Url {
    /// Parses an absolute URL from `input`.
    pub fn parse(input: &str) -> (r: Result<Url, InvalidUrl>)
        ensures
            match r {
                Ok(u) => parsed(input@) == Some(u@),
                Err(_) => parsed(input@) is None,
            },
    {
        match parse_with_url_crate(input) {
            Ok(u) => Ok(u),
            Err(cause) => Err(InvalidUrl { cause }),
        }
    }

    /// The serialization of this URL.
    pub fn as_str(&self) -> (r: &str)
        ensures
            r@ == self@.text,
    {
        self.text.as_str()
    }
}

} // verus!
