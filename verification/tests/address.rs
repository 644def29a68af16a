use tart_oauth::address::{
    bare_lookup, begin, classify, plan, AddressForm, IpAddress, LookupOutcome, Resolution,
    SocketAddress, UrlVerdict, DEFAULT_PORT,
};
use tart_oauth::flags::Error;

fn v4(a: u8, b: u8, c: u8, d: u8, port: u16) -> SocketAddress {
    SocketAddress { ip: IpAddress::V4([a, b, c, d]), port }
}

fn io_error() -> std::io::Error {
    std::io::Error::new(std::io::ErrorKind::Other, "lookup failed")
}

fn bare(address: &str) -> (String, u16) {
    let lookup = bare_lookup(address.to_string());
    assert_eq!(lookup.address, address);
    (lookup.host, lookup.port)
}

#[test]
fn host_with_port_resolves_to_that_port() {
    let lookup = match begin("example.com:9000".to_string()) {
        Resolution::Bare(lookup) => lookup,
        _ => panic!("expected a bare lookup"),
    };
    assert_eq!(lookup.host, "example.com");
    assert_eq!(lookup.port, 9000);
    let found = vec![v4(93, 184, 216, 34, lookup.port)];
    let address = lookup.finish(LookupOutcome::Found(found)).unwrap();
    assert_eq!(address.port, 9000);
    assert_eq!(address.ip, IpAddress::V4([93, 184, 216, 34]));
}

#[test]
fn bare_host_resolves_to_port_8080() {
    let lookup = match begin("example.com".to_string()) {
        Resolution::Bare(lookup) => lookup,
        _ => panic!("expected a bare lookup"),
    };
    assert_eq!(lookup.host, "example.com");
    assert_eq!(lookup.port, 8080);
    let found = vec![v4(93, 184, 216, 34, lookup.port), v4(1, 2, 3, 4, lookup.port)];
    let address = lookup.finish(LookupOutcome::Found(found)).unwrap();
    assert_eq!(address, v4(93, 184, 216, 34, 8080));
}

#[test]
fn what_is_no_address_is_invalid() {
    let text = "::::not-an-address::::";
    let lookup = match begin(text.to_string()) {
        Resolution::Bare(lookup) => lookup,
        _ => panic!("expected a bare lookup"),
    };
    assert_eq!(lookup.host, text);
    assert_eq!(lookup.port, DEFAULT_PORT);
    match lookup.finish(LookupOutcome::Failed(io_error())) {
        Err(Error::InvalidAddress(address)) => assert_eq!(address, text),
        _ => panic!("expected InvalidAddress"),
    }
    let lookup = bare_lookup(text.to_string());
    match lookup.finish(LookupOutcome::Found(vec![])) {
        Err(Error::InvalidAddress(address)) => assert_eq!(address, text),
        _ => panic!("expected InvalidAddress"),
    }
}

#[test]
fn url_with_host_is_looked_up_as_a_url() {
    let lookup = match begin("http://localhost:8080".to_string()) {
        Resolution::Url(lookup) => lookup,
        _ => panic!("expected a URL lookup"),
    };
    assert_eq!(lookup.address, "http://localhost:8080");
    assert_eq!(lookup.url.as_str(), "http://localhost:8080/");
    assert_eq!(lookup.url.port_or_known_default(), Some(8080));
    let found = vec![v4(127, 0, 0, 1, 8080), v4(10, 0, 0, 1, 8080)];
    match lookup.finish(LookupOutcome::Found(found)) {
        UrlVerdict::Resolved(address) => assert_eq!(address, v4(127, 0, 0, 1, 8080)),
        _ => panic!("expected an address"),
    }
}

#[test]
fn url_that_leads_nowhere_is_retried_as_a_bare_host() {
    let lookup = match begin("http://nowhere.example".to_string()) {
        Resolution::Url(lookup) => lookup,
        _ => panic!("expected a URL lookup"),
    };
    let retry = match lookup.finish(LookupOutcome::Found(vec![])) {
        UrlVerdict::Retry(retry) => retry,
        _ => panic!("expected a retry"),
    };
    assert_eq!(retry.address, "http://nowhere.example");
    assert_eq!(retry.host, "http://nowhere.example");
    assert_eq!(retry.port, 8080);
    assert!(matches!(
        retry.finish(LookupOutcome::Found(vec![])),
        Err(Error::InvalidAddress(_))
    ));
}

#[test]
fn failed_url_lookup_is_an_io_error() {
    let lookup = match begin("http://localhost:8080".to_string()) {
        Resolution::Url(lookup) => lookup,
        _ => panic!("expected a URL lookup"),
    };
    match lookup.finish(LookupOutcome::Failed(io_error())) {
        UrlVerdict::Failed(Error::Io(error)) => assert_eq!(error.to_string(), "lookup failed"),
        _ => panic!("expected an I/O error"),
    }
}

#[test]
fn broken_url_syntax_is_a_parse_error() {
    match begin("http://[::1".to_string()) {
        Resolution::Failed(Error::UrlParse(error)) => {
            assert_eq!(error, url::ParseError::InvalidIpv6Address)
        }
        _ => panic!("expected a parse error"),
    }
    match begin("http://example.com:99999".to_string()) {
        Resolution::Failed(Error::UrlParse(error)) => {
            assert_eq!(error, url::ParseError::InvalidPort)
        }
        _ => panic!("expected a parse error"),
    }
}

#[test]
fn forms_of_addresses() {
    assert!(matches!(classify("example.com"), AddressForm::Bare));
    assert!(matches!(classify("example.com:9000"), AddressForm::Bare));
    assert!(matches!(classify("mailto:someone@example.com"), AddressForm::Bare));
    assert!(matches!(classify(""), AddressForm::Bare));
    assert!(matches!(classify("https://example.com/cb"), AddressForm::Url(_)));
    assert!(matches!(
        classify("http://"),
        AddressForm::Malformed(url::ParseError::EmptyHost)
    ));
}

#[test]
fn plan_follows_the_form() {
    match plan("h:1".to_string(), AddressForm::Bare) {
        Resolution::Bare(lookup) => {
            assert_eq!(lookup.host, "h");
            assert_eq!(lookup.port, 1);
        }
        _ => panic!("expected a bare lookup"),
    }
    match plan("x".to_string(), AddressForm::Malformed(url::ParseError::IdnaError)) {
        Resolution::Failed(Error::UrlParse(error)) => {
            assert_eq!(error, url::ParseError::IdnaError)
        }
        _ => panic!("expected a parse error"),
    }
    let url = url::Url::parse("http://h/").unwrap();
    match plan("http://h".to_string(), AddressForm::Url(url.clone())) {
        Resolution::Url(lookup) => {
            assert_eq!(lookup.url, url);
            assert_eq!(lookup.address, "http://h");
        }
        _ => panic!("expected a URL lookup"),
    }
}

#[test]
fn bare_targets() {
    assert_eq!(bare("localhost"), ("localhost".to_string(), 8080));
    assert_eq!(bare("localhost:3000"), ("localhost".to_string(), 3000));
    assert_eq!(bare("host:0"), ("host".to_string(), 0));
    assert_eq!(bare("host:65535"), ("host".to_string(), 65535));
    assert_eq!(bare("host:00080"), ("host".to_string(), 80));
    assert_eq!(bare(":8080"), (String::new(), 8080));
    assert_eq!(bare("127.0.0.1:81"), ("127.0.0.1".to_string(), 81));
    assert_eq!(bare("m\u{fc}nchen.example:81"), ("m\u{fc}nchen.example".to_string(), 81));
}

#[test]
fn bare_targets_without_a_usable_port() {
    assert_eq!(bare("host:65536"), ("host:65536".to_string(), 8080));
    assert_eq!(bare("host:99999999999999999999"), ("host:99999999999999999999".to_string(), 8080));
    assert_eq!(bare("host:"), ("host:".to_string(), 8080));
    assert_eq!(bare("host:80a"), ("host:80a".to_string(), 8080));
    assert_eq!(bare("host:+80"), ("host:+80".to_string(), 8080));
    assert_eq!(bare("a:b:80"), ("a:b:80".to_string(), 8080));
    assert_eq!(bare("::1"), ("::1".to_string(), 8080));
    assert_eq!(bare(""), (String::new(), 8080));
    assert_eq!(bare(":"), (":".to_string(), 8080));
}
