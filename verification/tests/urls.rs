use system_proxy::types::direct_on_failure;
use system_proxy::unix::proxy_from_reply;
use system_proxy::uri::{Host, Url};

#[test]
fn parse_reads_scheme_and_host() {
    let url = Url::parse("HTTPS://User@Example.COM:8443/Path?q=1#top").unwrap();
    assert_eq!(url.as_str(), "https://User@example.com:8443/Path?q=1#top");
    assert_eq!(url.text, "https://User@example.com:8443/Path?q=1#top");
    assert_eq!(url.scheme, "https");
    assert_eq!(url.host, Some(Host::Domain("example.com".to_string())));
}

#[test]
fn parse_reads_addresses() {
    let url = Url::parse("http://192.168.0.1/").unwrap();
    assert_eq!(url.host, Some(Host::Ipv4("192.168.0.1".to_string())));
    let url = Url::parse("http://0x7f.1/").unwrap();
    assert_eq!(url.host, Some(Host::Ipv4("127.0.0.1".to_string())));
    let url = Url::parse("http://[FE80:0000:0000:0000:2EAD:FEA3:1423:6637]/").unwrap();
    assert_eq!(
        url.host,
        Some(Host::Ipv6("fe80::2ead:fea3:1423:6637".to_string()))
    );
    let url = Url::parse("http://[::1]:3128").unwrap();
    assert_eq!(url.host, Some(Host::Ipv6("::1".to_string())));
}

#[test]
fn parse_reads_urls_without_host() {
    let url = Url::parse("data:text/plain,Stuff").unwrap();
    assert_eq!(url.scheme, "data");
    assert_eq!(url.host, None);
    let url = Url::parse("file:///tmp/foo").unwrap();
    assert_eq!(url.scheme, "file");
    assert_eq!(url.host, None);
    let url = Url::parse("http:///foo").unwrap();
    assert_eq!(url.host, Some(Host::Domain("foo".to_string())));
}

#[test]
fn parse_reads_international_names() {
    let url = Url::parse("http://b\u{fc}cher.example/").unwrap();
    assert_eq!(
        url.host,
        Some(Host::Domain("xn--bcher-kva.example".to_string()))
    );
}

#[test]
fn parse_refuses_what_is_no_url() {
    assert_eq!(
        Url::parse("example.com").unwrap_err().cause,
        url::ParseError::RelativeUrlWithoutBase
    );
    assert_eq!(
        Url::parse("").unwrap_err().cause,
        url::ParseError::RelativeUrlWithoutBase
    );
    assert_eq!(
        Url::parse("http://").unwrap_err().cause,
        url::ParseError::EmptyHost
    );
    assert_eq!(
        Url::parse("http://example.com:99999/").unwrap_err().cause,
        url::ParseError::InvalidPort
    );
    assert_eq!(
        Url::parse("http://[::1/").unwrap_err().cause,
        url::ParseError::InvalidIpv6Address
    );
}

#[test]
fn parse_agrees_with_the_url_crate() {
    for text in [
        "http://example.com",
        "https://sub.example.com:8080/a/b?c=d",
        "http://10.1.2.3:3128",
        "http://[2001:db8::1]/",
        "socks5://proxy.example:1080",
        "mailto:someone@example.com",
    ] {
        let expected = url::Url::parse(text).unwrap();
        let url = Url::parse(text).unwrap();
        assert_eq!(url.as_str(), expected.as_str());
        assert_eq!(url.scheme, expected.scheme());
        let host = match expected.host() {
            None => None,
            Some(url::Host::Domain(name)) => Some(Host::Domain(name.to_string())),
            Some(url::Host::Ipv4(address)) => Some(Host::Ipv4(address.to_string())),
            Some(url::Host::Ipv6(address)) => Some(Host::Ipv6(address.to_string())),
        };
        assert_eq!(url.host, host);
    }
}

#[test]
fn empty_reply_is_direct() {
    assert_eq!(proxy_from_reply(&Vec::new()), Ok(None));
}

#[test]
fn direct_reply_is_direct() {
    assert_eq!(proxy_from_reply(&vec!["direct://".to_string()]), Ok(None));
    assert_eq!(
        proxy_from_reply(&vec![
            "direct://".to_string(),
            "http://proxy.example:3128".to_string()
        ]),
        Ok(None)
    );
}

#[test]
fn first_proxy_of_reply_counts() {
    assert_eq!(
        proxy_from_reply(&vec!["http://proxy.example:3128".to_string()]),
        Ok(Some(Url::parse("http://proxy.example:3128").unwrap()))
    );
    assert_eq!(
        proxy_from_reply(&vec![
            "http://first.example:3128".to_string(),
            "http://second.example:3128".to_string(),
            "direct://".to_string(),
        ]),
        Ok(Some(Url::parse("http://first.example:3128").unwrap()))
    );
    assert_eq!(
        proxy_from_reply(&vec!["direct:/".to_string()]),
        Ok(Some(Url::parse("direct:/").unwrap()))
    );
}

#[test]
fn invalid_proxy_in_reply_is_an_error() {
    let error = proxy_from_reply(&vec![
        "//proxy.example:3128".to_string(),
        "http://second.example:3128".to_string(),
    ])
    .unwrap_err();
    assert_eq!(error.proxy, "//proxy.example:3128");
    assert_eq!(error.error.cause, url::ParseError::RelativeUrlWithoutBase);
    let error = proxy_from_reply(&vec!["".to_string()]).unwrap_err();
    assert_eq!(error.proxy, "");
    assert_eq!(error.error.cause, url::ParseError::RelativeUrlWithoutBase);
    let error = proxy_from_reply(&vec!["http://[".to_string()]).unwrap_err();
    assert_eq!(error.proxy, "http://[");
    assert_eq!(error.error.cause, url::ParseError::InvalidIpv6Address);
}

#[test]
fn failure_means_direct() {
    let proxy = Url::parse("http://proxy.example:3128").unwrap();
    assert_eq!(
        direct_on_failure::<String>(Ok(Some(proxy.clone()))),
        Some(proxy)
    );
    assert_eq!(direct_on_failure::<String>(Ok(None)), None);
    assert_eq!(direct_on_failure(Err("the bus is gone".to_string())), None);
    assert_eq!(
        direct_on_failure(proxy_from_reply(&vec!["::".to_string()])),
        None
    );
}
