//! Resolve proxies via environment variables.
//!
//! This module provides means to get proxy settings from the environment as
//! understood by the [curl](https://curl.se/) tool.
//!
//! The [`EnvProxies`] struct extracts the HTTP and HTTPS proxies as well as
//! no-proxy rules from the curl environment variables (see
//! [`EnvProxies::from_curl_env`]).  The latter part is available separately
//! via [`NoProxyRules`].
//!
//! Note that the precise meaning of no-proxy rules in the relevant
//! environment variables varies wildly between different implementations.
//! This module tries to follow curl as closely as possible for maximum
//! compatibility, and thus does not support more advanced no-proxy rules,
//! e.g. based on IP subnet masks.

use vstd::prelude::*;
use crate::text::{
    chars_of, ends_with, find_char, is_blank, is_whitespace, lemma_leading_whitespace,
    lemma_trailing_whitespace, split, str_equal, tails_equal, trim, trim_bounds, trim_start,
};
use crate::environment::{text_of, EnvVarModel, Environment};
use crate::uri::{parsed, Host, HostModel, Url, UrlModel};

verus! {

/// The mathematical model of a [`NoProxyRule`].
pub enum RuleModel {
    /// Match the given host exactly.
    MatchExact(Seq<char>),
    /// Match a domain and all its subdomains.
    MatchSubdomain(Seq<char>),
}

/// The mathematical model of [`NoProxyRules`].
pub enum RulesModel {
    /// Every host is matched.
    All,
    /// A host is matched if one of the rules matches it.
    Rules(Seq<RuleModel>),
}

/// Whether `rule` is well formed: the text of a subdomain rule starts with
/// a dot.  Parsing gives well-formed rules only; matching does not ask for
/// it.
pub open spec fn well_formed(rule: RuleModel) -> bool {
    match rule {
        RuleModel::MatchExact(_) => true,
        RuleModel::MatchSubdomain(suffix) => suffix.len() > 0 && suffix[0] == '.',
    }
}

/// Whether every rule of `rules` is well formed.
pub open spec fn all_well_formed(rules: RulesModel) -> bool {
    match rules {
        RulesModel::All => true,
        RulesModel::Rules(list) => forall|i: int|
            0 <= i < list.len() ==> well_formed(#[trigger] list[i]),
    }
}

/// Whether `rule` matches `host`.
///
/// An exact rule matches a host whose text is the text of the rule, be it a
/// domain name or an IP address.  A subdomain rule matches domain names
/// only: those that end with the text of the rule, and the one that is the
/// text of the rule without its first character, the dot.
pub open spec fn rule_matches(rule: RuleModel, host: Option<HostModel>) -> bool {
    match rule {
        RuleModel::MatchExact(name) => match host {
            Some(HostModel::Domain(domain)) => domain == name,
            Some(HostModel::Ipv4(address)) => address == name,
            Some(HostModel::Ipv6(address)) => address == name,
            None => false,
        },
        RuleModel::MatchSubdomain(suffix) => match host {
            Some(HostModel::Domain(domain)) => suffix.is_suffix_of(domain) || (suffix.len() > 0
                && domain == suffix.skip(1)),
            _ => false,
        },
    }
}

/// Whether one of `rules` matches `host`.
pub open spec fn any_rule_matches(rules: Seq<RuleModel>, host: Option<HostModel>) -> bool {
    exists|i: int| 0 <= i < rules.len() && rule_matches(#[trigger] rules[i], host)
}

/// Whether `rules` ask for a direct connection to `host`.
pub open spec fn rules_match(rules: RulesModel, host: Option<HostModel>) -> bool {
    match rules {
        RulesModel::All => true,
        RulesModel::Rules(list) => any_rule_matches(list, host),
    }
}

/// An exact rule matches the host that it names, be it a domain name or an
/// IP address.  It matches neither a host with further characters after that
/// name nor a subdomain of it.
pub proof fn lemma_match_exact(name: Seq<char>, more: Seq<char>, sub: Seq<char>)
    requires
        more.len() > 0,
    ensures
        rule_matches(RuleModel::MatchExact(name), Some(HostModel::Domain(name))),
        rule_matches(RuleModel::MatchExact(name), Some(HostModel::Ipv4(name))),
        rule_matches(RuleModel::MatchExact(name), Some(HostModel::Ipv6(name))),
        !rule_matches(RuleModel::MatchExact(name), Some(HostModel::Domain(name + more))),
        !rule_matches(RuleModel::MatchExact(name), Some(HostModel::Ipv4(name + more))),
        !rule_matches(RuleModel::MatchExact(name), Some(HostModel::Ipv6(name + more))),
        !rule_matches(
            RuleModel::MatchExact(name),
            Some(HostModel::Domain(sub + seq!['.'] + name)),
        ),
        !rule_matches(RuleModel::MatchExact(name), None),
{
}

/// The subdomain rule of a domain, which is a dot followed by the name of
/// the domain, matches the domain itself and each of its subdomains.  It
/// does not match a domain that only ends with the same characters, with no
/// dot before them.  It matches no IP address, and no URL without a host.
pub proof fn lemma_match_subdomain(name: Seq<char>, sub: Seq<char>, other: Seq<char>)
    ensures
        rule_matches(RuleModel::MatchSubdomain(seq!['.'] + name), Some(HostModel::Domain(name))),
        rule_matches(
            RuleModel::MatchSubdomain(seq!['.'] + name),
            Some(HostModel::Domain(sub + seq!['.'] + name)),
        ),
        other.len() > 0 && other.last() != '.' ==> !rule_matches(
            RuleModel::MatchSubdomain(seq!['.'] + name),
            Some(HostModel::Domain(other + name)),
        ),
        !rule_matches(RuleModel::MatchSubdomain(seq!['.'] + name), Some(HostModel::Ipv4(other))),
        !rule_matches(RuleModel::MatchSubdomain(seq!['.'] + name), Some(HostModel::Ipv6(other))),
        !rule_matches(RuleModel::MatchSubdomain(seq!['.'] + name), None),
{
    let suffix = seq!['.'] + name;
    assert(suffix.skip(1) =~= name);
    let below = sub + seq!['.'] + name;
    if other.len() > 0 && other.last() != '.' {
        let domain = other + name;
        if suffix.is_suffix_of(domain) {
            let tail = domain.subrange(domain.len() - suffix.len(), domain.len() as int);
            assert(tail[0] == other.last());
        }
    }
}

/// Rules that stand for all hosts match every host, and a URL without a
/// host too.
pub proof fn lemma_all_matches(host: Option<HostModel>)
    ensures
        rules_match(RulesModel::All, host),
{
}

/// An empty list of rules matches nothing.
pub proof fn lemma_no_rules_match_nothing(host: Option<HostModel>)
    ensures
        !rules_match(RulesModel::Rules(Seq::empty()), host),
{
}

/// A trait which represents a rule for when to skip a proxy.
pub trait NoProxy {
    /// Whether this rule asks for a direct connection to `url`.
    spec fn excludes(&self, url: UrlModel) -> bool;

    /// Whether *not* to use a proxy for the given `url`.
    ///
    /// Return `true` if a direct connection should be used for `url`, or
    /// `false` if `url` should use a proxy.
    fn no_proxy_for(&self, url: &Url) -> (r: bool)
        ensures
            r == self.excludes(url@),
    ;

    /// Whether to use a proxy for the given `url`.
    ///
    /// Return `true` if a proxy should be used for `url` or `false` if a
    /// direct connection should be used.
    fn proxy_allowed_for(&self, url: &Url) -> (r: bool)
        ensures
            r == !self.excludes(url@),
    {
        !self.no_proxy_for(url)
    }
}

/// A single rule for when not to use a proxy.
#[derive(Debug, PartialEq, Eq)]
pub enum NoProxyRule {
    /// Match the given hostname exactly.
    MatchExact(String),
    /// Match a domain and all its subdomains.
    MatchSubdomain(String),
}

impl View for NoProxyRule {
    type V = RuleModel;

    open spec fn view(&self) -> RuleModel {
        match *self {
            NoProxyRule::MatchExact(name) => RuleModel::MatchExact(name@),
            NoProxyRule::MatchSubdomain(suffix) => RuleModel::MatchSubdomain(suffix@),
        }
    }
}

impl DeepView for NoProxyRule {
    type V = RuleModel;

    open spec fn deep_view(&self) -> RuleModel {
        self@
    }
}

impl Clone for NoProxyRule {
    fn clone(&self) -> (r: Self)
        ensures
            r == *self,
    {
        match self {
            NoProxyRule::MatchExact(name) => NoProxyRule::MatchExact(name.clone()),
            NoProxyRule::MatchSubdomain(suffix) => NoProxyRule::MatchSubdomain(suffix.clone()),
        }
    }
}

impl NoProxyRule {
    /// Whether this rule matches `host`.
    pub fn matches_host(&self, host: Option<&Host>) -> (r: bool)
        ensures
            r == rule_matches(self@, host.deep_view()),
    {
        match self {
            NoProxyRule::MatchExact(name) => match host {
                Some(Host::Domain(domain)) => str_equal(domain.as_str(), name.as_str()),
                Some(Host::Ipv4(address)) => str_equal(address.as_str(), name.as_str()),
                Some(Host::Ipv6(address)) => str_equal(address.as_str(), name.as_str()),
                None => false,
            },
            NoProxyRule::MatchSubdomain(suffix) => match host {
                Some(Host::Domain(domain)) => {
                    if ends_with(domain.as_str(), suffix.as_str()) {
                        true
                    } else if suffix.as_str().is_empty() {
                        false
                    } else {
                        proof {
                            assert(domain@.skip(0) == domain@);
                        }
                        tails_equal(domain.as_str(), 0, suffix.as_str(), 1)
                    }
                },
                _ => false,
            },
        }
    }
}

impl NoProxy for NoProxyRule {
    open spec fn excludes(&self, url: UrlModel) -> bool {
        rule_matches(self@, url.host)
    }

    fn no_proxy_for(&self, url: &Url) -> (r: bool) {
        self.matches_host(url.host.as_ref())
    }
}

/// Combine multiple rules for when not to use a proxy.
#[derive(Debug, PartialEq, Eq)]
pub enum NoProxyRules {
    /// Do not use a proxy for all hosts.
    All,
    /// Do not use a proxy if any of the given rules matches.
    ///
    /// If the list of rules is empty, always use a proxy.
    Rules(Vec<NoProxyRule>),
}

impl View for NoProxyRules {
    type V = RulesModel;

    open spec fn view(&self) -> RulesModel {
        match *self {
            NoProxyRules::All => RulesModel::All,
            NoProxyRules::Rules(rules) => RulesModel::Rules(rules.deep_view()),
        }
    }
}

impl DeepView for NoProxyRules {
    type V = RulesModel;

    open spec fn deep_view(&self) -> RulesModel {
        self@
    }
}

/// The rule that a token of a rule list stands for: a token that starts with
/// a dot matches a domain and its subdomains, any other token matches a host
/// exactly.  The token itself is kept as it is.
pub open spec fn rule_of(token: Seq<char>) -> RuleModel {
    if token.len() > 0 && token[0] == '.' {
        RuleModel::MatchSubdomain(token)
    } else {
        RuleModel::MatchExact(token)
    }
}

/// The rules that a list of tokens stands for: every token is trimmed, what
/// is then empty is left out, and each of the others gives a rule.
pub open spec fn rules_of_tokens(tokens: Seq<Seq<char>>) -> Seq<RuleModel> {
    tokens.map_values(|token: Seq<char>| trim(token)).filter(
        |token: Seq<char>| token.len() > 0,
    ).map_values(|token: Seq<char>| rule_of(token))
}

/// The meaning of a curl no-proxy value.
///
/// The value is trimmed.  A single `*` then stands for all hosts; anything
/// else is a list of tokens separated by commas.
pub open spec fn parse_model(value: Seq<char>) -> RulesModel {
    let trimmed = trim(value);
    if trimmed == seq!['*'] {
        RulesModel::All
    } else {
        RulesModel::Rules(rules_of_tokens(split(trimmed, ',')))
    }
}

/// The rules of a list of tokens are the rules of its first token, followed
/// by the rules of the others.
pub proof fn lemma_rules_of_tokens_prepend(first: Seq<char>, others: Seq<Seq<char>>)
    ensures
        rules_of_tokens(seq![first] + others) == (if trim(first).len() > 0 {
            seq![rule_of(trim(first))]
        } else {
            Seq::<RuleModel>::empty()
        }) + rules_of_tokens(others),
{
    let trimming = |token: Seq<char>| trim(token);
    let kept = |token: Seq<char>| token.len() > 0;
    let ruling = |token: Seq<char>| rule_of(token);
    let head = seq![trim(first)];
    let tail = others.map_values(trimming);
    assert((seq![first] + others).map_values(trimming) =~= head + tail);
    tail.lemma_filter_prepend(trim(first), kept);
    let kept_head = if trim(first).len() > 0 {
        seq![trim(first)]
    } else {
        Seq::<Seq<char>>::empty()
    };
}

/// An empty list of tokens gives no rule.
pub proof fn lemma_rules_of_no_tokens()
    ensures
        rules_of_tokens(Seq::<Seq<char>>::empty()) == Seq::<RuleModel>::empty(),
{
    let trimming = |token: Seq<char>| trim(token);
    let kept = |token: Seq<char>| token.len() > 0;
    let none = Seq::<Seq<char>>::empty();
    reveal(Seq::filter);
}

/// Every rule that a value stands for is well formed.
pub proof fn lemma_parse_well_formed(value: Seq<char>)
    ensures
        all_well_formed(parse_model(value)),
{
    let tokens = split(trim(value), ',');
    let kept = tokens.map_values(|token: Seq<char>| trim(token)).filter(
        |token: Seq<char>| token.len() > 0,
    );
    let rules = rules_of_tokens(tokens);
    assert forall|i: int| 0 <= i < rules.len() implies well_formed(#[trigger] rules[i]) by {
    }
}

/// A value that is a single `*`, whatever white space surrounds it, stands
/// for all hosts.
pub proof fn lemma_parse_wildcard(before: Seq<char>, after: Seq<char>)
    requires
        is_blank(before),
        is_blank(after),
    ensures
        parse_model(before + seq!['*'] + after) == RulesModel::All,
{
    let value = before + seq!['*'] + after;
    assert forall|i: int| 0 <= i < before.len() implies is_whitespace(#[trigger] value[i]) by {
    }
    lemma_leading_whitespace(value, before.len() as int);
    let rest = trim_start(value);
    assert forall|i: int| rest.len() - after.len() <= i < rest.len() implies is_whitespace(
        #[trigger] rest[i],
    ) by {
    }
    lemma_trailing_whitespace(rest, after.len() as int);
    assert(trim(value) =~= seq!['*']);
}

/// A value of white space alone, the empty value too, gives an empty list
/// of rules.
pub proof fn lemma_parse_blank(value: Seq<char>)
    requires
        is_blank(value),
    ensures
        parse_model(value) == RulesModel::Rules(Seq::empty()),
{
    lemma_leading_whitespace(value, value.len() as int);
    let none = Seq::<char>::empty();
    assert(trim(value) =~= none);
    lemma_rules_of_tokens_prepend(none, Seq::<Seq<char>>::empty());
    lemma_rules_of_no_tokens();
}

impl NoProxyRules {
    /// Create no proxy rules.
    pub fn new(rules: Vec<NoProxyRule>) -> (r: Self)
        ensures
            r == NoProxyRules::Rules(rules),
    {
        NoProxyRules::Rules(rules)
    }

    /// Use a proxy for all URLs.
    pub fn none() -> (r: Self)
        ensures
            r@ == RulesModel::Rules(Seq::empty()),
    {
        let rules: Vec<NoProxyRule> = Vec::new();
        assert(rules.deep_view() =~= Seq::<RuleModel>::empty());
        NoProxyRules::Rules(rules)
    }

    /// Never use a proxy for any URL.
    pub fn all() -> (r: Self)
        ensures
            r == NoProxyRules::All,
    {
        NoProxyRules::All
    }

    /// Parse a curl no proxy rule from `value`.
    ///
    /// See [`Self::from_curl_env()`] for the details of the format.
    pub fn parse_curl_env(value: &str) -> (r: Self)
        ensures
            r@ == parse_model(value@),
            all_well_formed(r@),
    {
        proof {
            lemma_parse_well_formed(value@);
        }
        let cs = chars_of(value);
        let (lo, hi): (usize, usize) = trim_bounds(&cs, 0, cs.len());
        proof {
            assert(cs@.subrange(0, cs.len() as int) == cs@);
        }
        if hi - lo == 1 && cs[lo] == '*' {
            proof {
                assert(trim(value@) =~= seq!['*']);
            }
            NoProxyRules::All
        } else {
            NoProxyRules::Rules(rules_between(value, &cs, lo, hi))
        }
    }
}

/// Reads the list of rules that the characters of `value` from `lo` up to
/// `hi` hold.  `cs` holds the characters of `value`.
fn rules_between(value: &str, cs: &Vec<char>, lo: usize, hi: usize) -> (rules: Vec<NoProxyRule>)
    requires
        cs@ == value@,
        lo <= hi <= cs.len(),
    ensures
        rules.deep_view() == rules_of_tokens(split(cs@.subrange(lo as int, hi as int), ',')),
{
    let ghost list = cs@.subrange(lo as int, hi as int);
    let mut rules: Vec<NoProxyRule> = Vec::new();
    let mut start: usize = lo;
    loop
        invariant
            lo <= start <= hi <= cs.len(),
            cs@ == value@,
            list == cs@.subrange(lo as int, hi as int),
            rules.deep_view() + rules_of_tokens(split(cs@.subrange(start as int, hi as int), ','))
                == rules_of_tokens(split(list, ',')),
        decreases hi - start,
    {
        let ghost rest = cs@.subrange(start as int, hi as int);
        let end: usize = find_char(cs, start, hi, ',');
        let ghost token = cs@.subrange(start as int, end as int);
        let (from, to): (usize, usize) = trim_bounds(cs, start, end);
        if from < to {
            let text = value.substring_char(from, to);
            let rule = if cs[from] == '.' {
                NoProxyRule::MatchSubdomain(text.to_owned())
            } else {
                NoProxyRule::MatchExact(text.to_owned())
            };
            rules.push(rule);
        }
        proof {
            assert(token == rest.take(end - start));
        }
        if end == hi {
            proof {
                lemma_rules_of_tokens_prepend(rest, Seq::<Seq<char>>::empty());
                lemma_rules_of_no_tokens();
            }
            return rules;
        }
        proof {
            let after = cs@.subrange(end + 1, hi as int);
            assert(after == rest.skip(end - start + 1));
            lemma_rules_of_tokens_prepend(token, split(after, ','));
        }
        start = end + 1;
    }
}

/// The no-proxy rules that an environment asks for: those of `no_proxy`
/// where that variable is set, else those of `NO_PROXY`, and `None` where
/// neither is set.
pub open spec fn no_proxy_setting(env: Seq<EnvVarModel>) -> Option<RulesModel> {
    match text_of(env, "no_proxy"@) {
        Some(value) => Some(parse_model(value)),
        None => match text_of(env, "NO_PROXY"@) {
            Some(value) => Some(parse_model(value)),
            None => None,
        },
    }
}

impl NoProxyRules {
    /// Lookup no proxy rules in Curl environment variables `$no_proxy` and
    /// `$NO_PROXY`.
    ///
    /// `$no_proxy` and `$NO_PROXY` either contain a single wildcard `*` or a
    /// comma separated list of hostnames.  In the first case the proxy is
    /// disabled for all URLs, in the second case it is disabled if it matches
    /// any hostname in the list.
    ///
    /// If a hostname starts with `.` it matches the host itself as well as all
    /// of its subdomains; otherwise it must match the host exactly.  IPv4 and
    /// IPv6 addresses can be used as well, but are compared as strings, i.e.
    /// no wildcards and no subnet specifications.  In other words neither
    /// `192.168.1.*` nor `192.168.1.0/24` will work; there's _no way_ to
    /// disable the proxy for an IP address range.  This limitation is
    /// inherited from curl.
    ///
    /// All extra whitespace in rules or around the value is ignored.
    ///
    /// The lowercase `$no_proxy` takes precedence over `$NO_PROXY` if both are
    /// defined.
    ///
    /// Return the rules extracted from either variable, or `None` if both
    /// variables are unset.
    pub fn from_curl_env(env: &Environment) -> (r: Option<Self>)
        ensures
            r.deep_view() == no_proxy_setting(env@),
    {
        match env.lookup("no_proxy") {
            Some(value) => Some(Self::parse_curl_env(value)),
            None => match env.lookup("NO_PROXY") {
                Some(value) => Some(Self::parse_curl_env(value)),
                None => None,
            },
        }
    }
}

impl Clone for NoProxyRules {
    fn clone(&self) -> (r: Self)
        ensures
            r@ == self@,
    {
        match self {
            NoProxyRules::All => NoProxyRules::All,
            NoProxyRules::Rules(rules) => {
                let mut copy: Vec<NoProxyRule> = Vec::new();
                let mut i: usize = 0;
                while i < rules.len()
                    invariant
                        i <= rules.len(),
                        copy.deep_view() == rules.deep_view().take(i as int),
                    decreases rules.len() - i,
                {
                    copy.push(rules[i].clone());
                    proof {
                        assert(rules.deep_view().take(i + 1) =~= rules.deep_view().take(
                            i as int,
                        ).push(rules[i as int]@));
                    }
                    i += 1;
                }
                proof {
                    assert(rules.deep_view().take(i as int) =~= rules.deep_view());
                }
                NoProxyRules::Rules(copy)
            },
        }
    }
}

impl From<Vec<NoProxyRule>> for NoProxyRules {
    fn from(rules: Vec<NoProxyRule>) -> (r: Self) {
        Self::new(rules)
    }
}

impl vstd::std_specs::convert::FromSpecImpl<Vec<NoProxyRule>> for NoProxyRules {
    open spec fn obeys_from_spec() -> bool {
        true
    }

    open spec fn from_spec(rules: Vec<NoProxyRule>) -> Self {
        NoProxyRules::Rules(rules)
    }
}

impl From<NoProxyRule> for NoProxyRules {
    fn from(rule: NoProxyRule) -> (r: Self)
        ensures
            r@ == RulesModel::Rules(seq![rule@]),
    {
        let mut rules: Vec<NoProxyRule> = Vec::new();
        rules.push(rule);
        assert(rules.deep_view() =~= seq![rule@]);
        Self::new(rules)
    }
}

/// The result of this conversion holds a vector, which a specification can
/// describe but not name: the contract of `from` speaks of the model of the
/// result instead.
impl vstd::std_specs::convert::FromSpecImpl<NoProxyRule> for NoProxyRules {
    open spec fn obeys_from_spec() -> bool {
        false
    }

    open spec fn from_spec(rule: NoProxyRule) -> Self {
        NoProxyRules::Rules(choose|rules: Vec<NoProxyRule>| rules.deep_view() == seq![rule@])
    }
}

impl Default for NoProxyRules {
    /// Empty no proxy rules, i.e. always use a proxy.
    fn default() -> (r: Self)
        ensures
            r@ == RulesModel::Rules(Seq::empty()),
    {
        NoProxyRules::none()
    }
}

impl NoProxy for NoProxyRules {
    open spec fn excludes(&self, url: UrlModel) -> bool {
        rules_match(self@, url.host)
    }

    fn no_proxy_for(&self, url: &Url) -> (r: bool) {
        match self {
            NoProxyRules::All => true,
            NoProxyRules::Rules(rules) => {
                let ghost list = rules.deep_view();
                let ghost host = url@.host;
                let mut i: usize = 0;
                while i < rules.len()
                    invariant
                        i <= rules.len(),
                        list == rules.deep_view(),
                        self@ == RulesModel::Rules(list),
                        host == url@.host,
                        forall|j: int| 0 <= j < i ==> !rule_matches(#[trigger] list[j], host),
                    decreases rules.len() - i,
                {
                    if rules[i].matches_host(url.host.as_ref()) {
                        assert(rule_matches(list[i as int], host));
                        return true;
                    }
                    i += 1;
                }
                false
            },
        }
    }
}

/// The mathematical model of [`EnvProxies`].
pub struct EnvProxiesModel {
    /// The proxy for `http:` URLs.
    pub http: Option<UrlModel>,
    /// The proxy for `https:` URLs.
    pub https: Option<UrlModel>,
    /// When not to use a proxy.
    pub no_proxy_rules: Option<RulesModel>,
}

/// Proxies extracted from the environment.
#[derive(Debug, PartialEq, Eq)]
pub struct EnvProxies {
    /// The proxy to use for `http:` URLs.
    ///
    /// `None` if no HTTP proxy was set in the environment.
    pub http: Option<Url>,
    /// The proxy to use for `https:` URLs.
    ///
    /// `None` if no HTTPS proxy was set in the environment.
    pub https: Option<Url>,
    /// When not to use a proxy.
    ///
    /// `None` if no such rules where present in the environment.
    pub no_proxy_rules: Option<NoProxyRules>,
}

impl View for EnvProxies {
    type V = EnvProxiesModel;

    open spec fn view(&self) -> EnvProxiesModel {
        EnvProxiesModel {
            http: self.http.deep_view(),
            https: self.https.deep_view(),
            no_proxy_rules: self.no_proxy_rules.deep_view(),
        }
    }
}

impl Clone for EnvProxies {
    fn clone(&self) -> (r: Self)
        ensures
            r@ == self@,
    {
        let http = match &self.http {
            Some(proxy) => Some(proxy.clone()),
            None => None,
        };
        let https = match &self.https {
            Some(proxy) => Some(proxy.clone()),
            None => None,
        };
        let no_proxy_rules = match &self.no_proxy_rules {
            Some(rules) => Some(rules.clone()),
            None => None,
        };
        EnvProxies { http, https, no_proxy_rules }
    }
}

/// The URL that the variable `var` of `env` holds: `None` where the variable
/// is not set, and also where its value is no URL.
pub open spec fn url_of(env: Seq<EnvVarModel>, var: Seq<char>) -> Option<UrlModel> {
    match text_of(env, var) {
        Some(value) => parsed(value),
        None => None,
    }
}

/// The URL of the variable `lower`, or else that of `upper`.
pub open spec fn proxy_setting(env: Seq<EnvVarModel>, lower: Seq<char>, upper: Seq<char>)
    -> Option<UrlModel> {
    match url_of(env, lower) {
        Some(url) => Some(url),
        None => url_of(env, upper),
    }
}

/// The proxies that an environment asks for.
pub open spec fn env_proxies_model(env: Seq<EnvVarModel>) -> EnvProxiesModel {
    EnvProxiesModel {
        http: proxy_setting(env, "http_proxy"@, "HTTP_PROXY"@),
        https: proxy_setting(env, "https_proxy"@, "HTTPS_PROXY"@),
        no_proxy_rules: no_proxy_setting(env),
    }
}

/// Where the lowercase variable of a setting holds a value, that value
/// counts, whatever the uppercase variable holds.  A variable whose value is
/// no valid Unicode, or a proxy variable whose value is no URL, holds no
/// value.
pub proof fn lemma_lowercase_wins(env: Seq<EnvVarModel>)
    ensures
        url_of(env, "http_proxy"@) is Some ==> env_proxies_model(env).http == url_of(
            env,
            "http_proxy"@,
        ),
        url_of(env, "https_proxy"@) is Some ==> env_proxies_model(env).https == url_of(
            env,
            "https_proxy"@,
        ),
        text_of(env, "no_proxy"@) matches Some(value) ==> env_proxies_model(env).no_proxy_rules
            == Some(parse_model(value)),
{
}

/// Where the lowercase variable of a setting holds no value, the uppercase
/// variable counts.  Where neither variable of the rules is set, there are
/// no rules.
pub proof fn lemma_uppercase_is_fallback(env: Seq<EnvVarModel>)
    ensures
        url_of(env, "http_proxy"@) is None ==> env_proxies_model(env).http == url_of(
            env,
            "HTTP_PROXY"@,
        ),
        url_of(env, "https_proxy"@) is None ==> env_proxies_model(env).https == url_of(
            env,
            "HTTPS_PROXY"@,
        ),
        text_of(env, "no_proxy"@) is None ==> env_proxies_model(env).no_proxy_rules == (
        match text_of(env, "NO_PROXY"@) {
            Some(value) => Some(parse_model(value)),
            None => None,
        }),
{
}

/// The proxy that `proxies` give for `url`.
///
/// The scheme of `url` selects the proxy: `http`, `https`, or none for any
/// other scheme.  Where rules are present and match the host of `url`, there
/// is no proxy either.
pub open spec fn lookup_model(proxies: EnvProxiesModel, url: UrlModel) -> Option<UrlModel> {
    let proxy = if url.scheme == "http"@ {
        proxies.http
    } else if url.scheme == "https"@ {
        proxies.https
    } else {
        None
    };
    match proxies.no_proxy_rules {
        Some(rules) => if rules_match(rules, url.host) {
            None
        } else {
            proxy
        },
        None => proxy,
    }
}

/// Looks up the variable `var` and parses its value as a URL.  A value that
/// is no URL counts as not set.
fn lookup_url(env: &Environment, var: &str) -> (r: Option<Url>)
    ensures
        r.deep_view() == url_of(env@, var@),
{
    match env.lookup(var) {
        Some(value) => match Url::parse(value) {
            Ok(url) => Some(url),
            Err(_) => None,
        },
        None => None,
    }
}

impl EnvProxies {
    /// No HTTP and HTTPS proxies in the environment.
    pub fn unset() -> (r: Self)
        ensures
            r == (EnvProxies { http: None, https: None, no_proxy_rules: None }),
    {
        EnvProxies { http: None, https: None, no_proxy_rules: None }
    }

    /// Get proxies defined in the curl environment.
    ///
    /// Get the proxy to use for http and https URLs from `$http_proxy` and
    /// `$https_proxy` respectively.  If one variable is not defined look at
    /// the uppercase variants instead; unlike curl this function also uses
    /// `$HTTP_PROXY` as fallback.
    ///
    /// IP addresses are matched as if they were host names, i.e. as strings.
    /// IPv6 addresses should be given without enclosing brackets.
    ///
    /// No proxy rules are taken from the curl environment with
    /// [`NoProxyRules::from_curl_env()`].
    ///
    /// If none of these variables is defined return [`EnvProxies::unset()`].
    ///
    /// See [`curl(1)`](https://curl.se/docs/manpage.html) for details of
    /// curl's proxy settings.
    pub fn from_curl_env(env: &Environment) -> (r: Self)
        ensures
            r@ == env_proxies_model(env@),
    {
        let http = match lookup_url(env, "http_proxy") {
            Some(url) => Some(url),
            None => lookup_url(env, "HTTP_PROXY"),
        };
        let https = match lookup_url(env, "https_proxy") {
            Some(url) => Some(url),
            None => lookup_url(env, "HTTPS_PROXY"),
        };
        EnvProxies { http, https, no_proxy_rules: NoProxyRules::from_curl_env(env) }
    }

    /// Whether no proxies were set in the environment.
    ///
    /// Returns `true` if all of `$http_proxy` and `$https_proxy` as well as
    /// their uppercase variants were not set in the environment.
    pub fn is_unset(&self) -> (r: bool)
        ensures
            r == (self@.http is None && self@.https is None),
    {
        self.http.is_none() && self.https.is_none()
    }

    /// Lookup a proxy server for the given `url`.
    pub fn lookup(&self, url: &Url) -> (r: Option<&Url>)
        ensures
            r.deep_view() == lookup_model(self@, url@),
            r matches Some(proxy) ==> self.http == Some(*proxy) || self.https == Some(*proxy),
    {
        let proxy = if str_equal(url.scheme.as_str(), "http") {
            self.http.as_ref()
        } else if str_equal(url.scheme.as_str(), "https") {
            self.https.as_ref()
        } else {
            None
        };
        match proxy {
            None => None,
            Some(found) => match &self.no_proxy_rules {
                Some(rules) => if rules.proxy_allowed_for(url) {
                    Some(found)
                } else {
                    None
                },
                None => Some(found),
            },
        }
    }
}

impl crate::types::ProxyResolver for EnvProxies {
    open spec fn may_answer(&self, url: UrlModel, answer: Option<UrlModel>) -> bool {
        answer == lookup_model(self@, url)
    }

    fn for_url(&self, url: &Url) -> (r: Option<Url>) {
        match self.lookup(url) {
            Some(proxy) => Some(proxy.clone()),
            None => None,
        }
    }
}

/// Get proxies from curl environment.
///
/// See [`EnvProxies::from_curl_env`].
pub fn from_curl_env(env: &Environment) -> (r: EnvProxies)
    ensures
        r@ == env_proxies_model(env@),
{
    EnvProxies::from_curl_env(env)
}

} // verus!
