//! The resolver that layers the environment over a system resolver.
//!
//! For every URL the decision is taken in three steps: rules that ask for a
//! direct connection come first, then the proxies of the environment, and
//! only then the resolver of the system.

use vstd::prelude::*;
use crate::env::{
    lookup_model, rules_match, EnvProxies, EnvProxiesModel, NoProxy, NoProxyRules, RulesModel,
    env_proxies_model, no_proxy_setting,
};
use crate::environment::{EnvVarModel, Environment};
use crate::types::ProxyResolver;
use crate::uri::{Url, UrlModel};

verus! {

/// The mathematical model of a [`Decision`].
pub enum DecisionModel {
    /// Connect directly.
    Direct,
    /// Use this proxy.
    Proxy(UrlModel),
    /// Ask the system resolver.
    AskSystem,
}

/// What the configuration of a [`SystemProxyResolver`] decides for a URL
/// before the system resolver is asked.
#[derive(Debug, PartialEq, Eq)]
pub enum Decision {
    /// The rules ask for a direct connection.
    Direct,
    /// The environment names this proxy.
    Proxy(Url),
    /// The configuration leaves the answer to the system resolver.
    AskSystem,
}

impl View for Decision {
    type V = DecisionModel;

    open spec fn view(&self) -> DecisionModel {
        match *self {
            Decision::Direct => DecisionModel::Direct,
            Decision::Proxy(proxy) => DecisionModel::Proxy(proxy@),
            Decision::AskSystem => DecisionModel::AskSystem,
        }
    }
}

/// The decision for `url` under the rules `no_proxy` and the proxies `env`.
///
/// Rules that match `url` override everything else.  Otherwise a proxy that
/// the environment gives for `url` is taken, and where it gives none the
/// system resolver is asked.
pub open spec fn decision_model(no_proxy: RulesModel, env: EnvProxiesModel, url: UrlModel)
    -> DecisionModel {
    if rules_match(no_proxy, url.host) {
        DecisionModel::Direct
    } else {
        match lookup_model(env, url) {
            Some(proxy) => DecisionModel::Proxy(proxy),
            None => DecisionModel::AskSystem,
        }
    }
}

/// The answer that follows from `decision` where the system resolver
/// answers `system`.
pub open spec fn conclude_model(decision: DecisionModel, system: Option<UrlModel>) -> Option<
    UrlModel,
> {
    match decision {
        DecisionModel::Direct => None,
        DecisionModel::Proxy(proxy) => Some(proxy),
        DecisionModel::AskSystem => system,
    }
}

/// The answer for `url` under the rules `no_proxy` and the proxies `env`
/// where the system resolver answers `system`.
pub open spec fn resolve_model(
    no_proxy: RulesModel,
    env: EnvProxiesModel,
    url: UrlModel,
    system: Option<UrlModel>,
) -> Option<UrlModel> {
    conclude_model(decision_model(no_proxy, env, url), system)
}

/// The rules that apply where the environment `env` is consulted: those
/// that it sets, or rules that match nothing.
pub open spec fn no_proxy_or_none(env: Seq<EnvVarModel>) -> RulesModel {
    match no_proxy_setting(env) {
        Some(rules) => rules,
        None => RulesModel::Rules(Seq::empty()),
    }
}

impl Decision {
    /// The answer that follows from this decision where the system resolver
    /// answers `system`.
    pub fn conclude(self, system: Option<Url>) -> (r: Option<Url>)
        ensures
            r.deep_view() == conclude_model(self@, system.deep_view()),
    {
        match self {
            Decision::Direct => None,
            Decision::Proxy(proxy) => Some(proxy),
            Decision::AskSystem => system,
        }
    }
}

/// A resolver that consults the environment first and a system resolver
/// after it.
#[derive(Debug)]
pub struct SystemProxyResolver<R> {
    /// The proxies of the environment.
    pub env: EnvProxies,
    /// When to connect directly, whatever else is configured.
    pub no_proxy: NoProxyRules,
    /// The resolver of the system.
    pub system: R,
}

impl<R: ProxyResolver> SystemProxyResolver<R> {
    /// A resolver over the given proxies, rules and system resolver.
    pub fn new(env: EnvProxies, no_proxy: NoProxyRules, system: R) -> (r: Self)
        ensures
            r.env == env,
            r.no_proxy == no_proxy,
            r.system == system,
    {
        SystemProxyResolver { env, no_proxy, system }
    }

    /// A resolver that takes its proxies and rules from the environment
    /// `env`.  Where `env` sets no rules, no URL is kept from its proxy.
    pub fn from_environment(env: &Environment, system: R) -> (r: Self)
        ensures
            r.env@ == env_proxies_model(env@),
            r.no_proxy@ == no_proxy_or_none(env@),
            r.system == system,
    {
        let no_proxy = match NoProxyRules::from_curl_env(env) {
            Some(rules) => rules,
            None => NoProxyRules::none(),
        };
        SystemProxyResolver { env: EnvProxies::from_curl_env(env), no_proxy, system }
    }

    /// A resolver that leaves the environment aside and asks `system` for
    /// every URL.
    pub fn without_environment(system: R) -> (r: Self)
        ensures
            r.env == (EnvProxies { http: None, https: None, no_proxy_rules: None }),
            r.no_proxy@ == RulesModel::Rules(Seq::empty()),
            r.system == system,
    {
        SystemProxyResolver { env: EnvProxies::unset(), no_proxy: NoProxyRules::none(), system }
    }

    /// What the configuration decides for `url` before the system resolver
    /// is asked.
    pub fn decide(&self, url: &Url) -> (r: Decision)
        ensures
            r@ == decision_model(self.no_proxy@, self.env@, url@),
    {
        if self.no_proxy.no_proxy_for(url) {
            Decision::Direct
        } else {
            match self.env.lookup(url) {
                Some(proxy) => Decision::Proxy(proxy.clone()),
                None => Decision::AskSystem,
            }
        }
    }
}

/// Whether `resolver` has no more than one answer for `url`.  This holds of
/// a resolver whose answer depends on nothing but the URL, and of a system
/// resolver for as long as the settings that it reads stay the same.
pub open spec fn single_valued<R: ProxyResolver>(resolver: R, url: UrlModel) -> bool {
    forall|first: Option<UrlModel>, second: Option<UrlModel>|
        resolver.may_answer(url, first) && resolver.may_answer(url, second) ==> first == second
}

/// Rules that match a URL override everything else: the answer is a direct
/// connection, whatever the environment and the system resolver name as
/// proxy.
pub proof fn lemma_no_proxy_overrides<R: ProxyResolver>(
    resolver: SystemProxyResolver<R>,
    url: UrlModel,
    answer: Option<UrlModel>,
)
    requires
        rules_match(resolver.no_proxy@, url.host),
        resolver.may_answer(url, answer),
    ensures
        answer is None,
        forall|system: Option<UrlModel>|
            resolve_model(resolver.no_proxy@, resolver.env@, url, system) is None,
{
}

/// A proxy of the environment is taken before the system resolver is asked.
pub proof fn lemma_environment_first<R: ProxyResolver>(
    resolver: SystemProxyResolver<R>,
    url: UrlModel,
    answer: Option<UrlModel>,
)
    requires
        !rules_match(resolver.no_proxy@, url.host),
        lookup_model(resolver.env@, url) is Some,
        resolver.may_answer(url, answer),
    ensures
        answer == lookup_model(resolver.env@, url),
        forall|system: Option<UrlModel>|
            resolve_model(resolver.no_proxy@, resolver.env@, url, system) == lookup_model(
                resolver.env@,
                url,
            ),
{
}

/// Where no rule matches a URL and the environment gives no proxy for it,
/// the answer of the system resolver is the answer, a direct connection
/// included.
pub proof fn lemma_system_answer_unchanged<R: ProxyResolver>(
    resolver: SystemProxyResolver<R>,
    url: UrlModel,
    answer: Option<UrlModel>,
)
    requires
        !rules_match(resolver.no_proxy@, url.host),
        lookup_model(resolver.env@, url) is None,
    ensures
        resolver.may_answer(url, answer) == resolver.system.may_answer(url, answer),
        resolve_model(resolver.no_proxy@, resolver.env@, url, answer) == answer,
{
}

/// Resolving a URL again gives the same answer again, as long as the system
/// resolver does.  Where the configuration decides by itself, the answer
/// does not depend on the system resolver at all.
pub proof fn lemma_resolve_repeatable<R: ProxyResolver>(
    resolver: SystemProxyResolver<R>,
    url: UrlModel,
    first: Option<UrlModel>,
    second: Option<UrlModel>,
)
    requires
        resolver.may_answer(url, first),
        resolver.may_answer(url, second),
        single_valued(resolver.system, url) || decision_model(
            resolver.no_proxy@,
            resolver.env@,
            url,
        ) != DecisionModel::AskSystem,
    ensures
        first == second,
{
}

/// The resolvers of this crate that ask no service have one answer for
/// each URL.
pub proof fn lemma_own_resolvers_single_valued(
    proxies: EnvProxies,
    none: crate::noproxy::NoProxyResolver,
    url: UrlModel,
)
    ensures
        single_valued(proxies, url),
        single_valued(none, url),
{
}

impl<R: ProxyResolver> ProxyResolver for SystemProxyResolver<R> {
    open spec fn may_answer(&self, url: UrlModel, answer: Option<UrlModel>) -> bool {
        match decision_model(self.no_proxy@, self.env@, url) {
            DecisionModel::AskSystem => self.system.may_answer(url, answer),
            decision => answer == conclude_model(decision, None),
        }
    }

    fn for_url(&self, url: &Url) -> (r: Option<Url>) {
        match self.decide(url) {
            Decision::AskSystem => self.system.for_url(url),
            decided => decided.conclude(None),
        }
    }
}

} // verus!
