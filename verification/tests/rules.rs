use system_proxy::env::{NoProxy, NoProxyRule, NoProxyRules};
use system_proxy::uri::{Host, Url};

fn parsed(text: &str) -> Url {
    Url::parse(text).unwrap()
}

fn exact(name: &str) -> NoProxyRule {
    NoProxyRule::MatchExact(name.to_string())
}

fn subdomain(suffix: &str) -> NoProxyRule {
    NoProxyRule::MatchSubdomain(suffix.to_string())
}

#[test]
fn exact_rule_matches_its_host_only() {
    for name in ["example.com", "localhost", "a", "xn--bcher-kva.example"] {
        let rule = exact(name);
        assert!(rule.no_proxy_for(&parsed(&format!("http://{}/", name))));
        assert!(!rule.no_proxy_for(&parsed(&format!("http://{}x/", name))));
        assert!(!rule.no_proxy_for(&parsed(&format!("http://sub.{}/", name))));
        assert!(rule.proxy_allowed_for(&parsed(&format!("http://sub.{}/", name))));
        assert!(!rule.proxy_allowed_for(&parsed(&format!("http://{}/", name))));
    }
}

#[test]
fn subdomain_rule_matches_domain_and_subdomains() {
    for name in ["example.com", "localhost", "a.b.c"] {
        let rule = subdomain(&format!(".{}", name));
        assert!(rule.no_proxy_for(&parsed(&format!("http://{}/", name))));
        assert!(rule.no_proxy_for(&parsed(&format!("http://sub.{}/", name))));
        assert!(rule.no_proxy_for(&parsed(&format!("https://a.b.{}/", name))));
        assert!(!rule.no_proxy_for(&parsed(&format!("http://x{}/", name))));
        assert!(!rule.no_proxy_for(&parsed(&format!("http://{}.org/", name))));
    }
}

#[test]
fn subdomain_rule_never_matches_an_address() {
    let rule = subdomain(".168.100.12");
    assert!(!rule.no_proxy_for(&parsed("http://192.168.100.12/")));
    let rule = subdomain(".1");
    assert!(!rule.no_proxy_for(&parsed("http://127.0.0.1/")));
    let rule = subdomain(":1");
    assert!(!rule.no_proxy_for(&parsed("http://[::1]/")));
    assert!(!rule.matches_host(Some(&Host::Ipv4(".1".to_string()))));
    assert!(!rule.matches_host(Some(&Host::Ipv6(":1".to_string()))));
}

#[test]
fn rules_on_hosts() {
    let domain = Host::Domain("foo.example.com".to_string());
    assert!(exact("foo.example.com").matches_host(Some(&domain)));
    assert!(!exact("example.com").matches_host(Some(&domain)));
    assert!(subdomain(".example.com").matches_host(Some(&domain)));
    assert!(subdomain(".foo.example.com").matches_host(Some(&domain)));
    assert!(!subdomain(".bar.example.com").matches_host(Some(&domain)));
    assert!(exact("10.0.0.1").matches_host(Some(&Host::Ipv4("10.0.0.1".to_string()))));
    assert!(exact("::1").matches_host(Some(&Host::Ipv6("::1".to_string()))));
    assert!(!exact("[::1]").matches_host(Some(&Host::Ipv6("::1".to_string()))));
}

#[test]
fn no_rule_matches_a_url_without_host() {
    let url = parsed("data:text/plain,Stuff");
    assert_eq!(url.host, None);
    assert!(!exact("").no_proxy_for(&url));
    assert!(!exact("text").no_proxy_for(&url));
    assert!(!subdomain("").no_proxy_for(&url));
    assert!(!subdomain(".plain").no_proxy_for(&url));
    assert!(!exact("x").matches_host(None));
    assert!(!subdomain(".x").matches_host(None));
    assert!(NoProxyRules::All.no_proxy_for(&url));
    assert!(!NoProxyRules::none().no_proxy_for(&url));
}

#[test]
fn subdomain_rule_is_total() {
    let any = parsed("http://foo.example.com/");
    assert!(subdomain("").no_proxy_for(&any));
    assert!(subdomain("example.com").no_proxy_for(&any));
    assert!(subdomain("xfoo.example.com").no_proxy_for(&any));
    assert!(!subdomain("foo.example.co").no_proxy_for(&any));
    assert!(subdomain("\u{e9}foo.example.com").no_proxy_for(&any));
    assert!(!subdomain("\u{e9}").no_proxy_for(&any));
}

#[test]
fn ipv6_rule_in_brackets_is_compared_literally() {
    let rules = NoProxyRules::parse_curl_env("[fe80::2ead:fea3:1423:6637]");
    assert_eq!(
        rules,
        NoProxyRules::Rules(vec![exact("[fe80::2ead:fea3:1423:6637]")])
    );
    assert!(!rules.no_proxy_for(&parsed("http://[fe80::2ead:fea3:1423:6637]/foo")));
    let rules = NoProxyRules::parse_curl_env("fe80::2ead:fea3:1423:6637");
    assert!(rules.no_proxy_for(&parsed("http://[fe80::2ead:fea3:1423:6637]/foo")));
    assert!(rules.no_proxy_for(&parsed("http://[FE80:0:0:0:2EAD:FEA3:1423:6637]/foo")));
}

#[test]
fn parse_wildcard_in_white_space() {
    for value in ["*", " *", "* ", "\t*\n", " \u{a0}*\u{3000}\r\n", "  *  "] {
        assert_eq!(NoProxyRules::parse_curl_env(value), NoProxyRules::All, "{:?}", value);
    }
    for value in ["**", "* *", "*,", ",*", "*.example.com"] {
        assert_ne!(NoProxyRules::parse_curl_env(value), NoProxyRules::All, "{:?}", value);
    }
}

#[test]
fn parse_blank_values() {
    for value in ["", "  ", "\t", "\n \r", "\u{a0}", ",", " , ,, "] {
        assert_eq!(
            NoProxyRules::parse_curl_env(value),
            NoProxyRules::Rules(Vec::new()),
            "{:?}",
            value
        );
    }
}

#[test]
fn parse_four_rules_in_order() {
    assert_eq!(
        NoProxyRules::parse_curl_env("example.com ,.example.com , foo.bar,192.122.100.10"),
        NoProxyRules::Rules(vec![
            exact("example.com"),
            subdomain(".example.com"),
            exact("foo.bar"),
            exact("192.122.100.10"),
        ])
    );
}

#[test]
fn parse_keeps_tokens_verbatim() {
    assert_eq!(
        NoProxyRules::parse_curl_env(" Example.COM,, . ,a b\t,\u{a0}.x\u{2003},*"),
        NoProxyRules::Rules(vec![
            exact("Example.COM"),
            subdomain("."),
            exact("a b"),
            subdomain(".x"),
            exact("*"),
        ])
    );
    assert_eq!(
        NoProxyRules::parse_curl_env("b\u{fc}cher.example,.\u{e9}"),
        NoProxyRules::Rules(vec![exact("b\u{fc}cher.example"), subdomain(".\u{e9}")])
    );
}

#[test]
fn parsed_subdomain_rules_start_with_a_dot() {
    let rules = NoProxyRules::parse_curl_env(".a, b ,.c.d,e.,..");
    match rules {
        NoProxyRules::Rules(list) => {
            assert_eq!(list.len(), 5);
            for rule in list {
                match rule {
                    NoProxyRule::MatchSubdomain(suffix) => assert!(suffix.starts_with('.')),
                    NoProxyRule::MatchExact(name) => assert!(!name.starts_with('.')),
                }
            }
        }
        NoProxyRules::All => panic!("a list of rules was expected"),
    }
}

#[test]
fn constructors_of_rules() {
    assert_eq!(NoProxyRules::none(), NoProxyRules::Rules(Vec::new()));
    assert_eq!(NoProxyRules::all(), NoProxyRules::All);
    assert_eq!(NoProxyRules::default(), NoProxyRules::Rules(Vec::new()));
    assert_eq!(
        NoProxyRules::new(vec![exact("a"), subdomain(".b")]),
        NoProxyRules::Rules(vec![exact("a"), subdomain(".b")])
    );
    assert_eq!(
        NoProxyRules::from(vec![exact("a")]),
        NoProxyRules::Rules(vec![exact("a")])
    );
    assert_eq!(
        NoProxyRules::from(subdomain(".b")),
        NoProxyRules::Rules(vec![subdomain(".b")])
    );
    assert_ne!(NoProxyRules::none(), NoProxyRules::all());
}

#[test]
fn clones_are_equal() {
    let rules = NoProxyRules::parse_curl_env("a,.b,c");
    assert_eq!(rules.clone(), rules);
    assert_eq!(NoProxyRules::All.clone(), NoProxyRules::All);
    assert_eq!(subdomain(".b").clone(), subdomain(".b"));
    let url = parsed("https://user@[::1]:8443/path?query#fragment");
    assert_eq!(url.clone(), url);
}
