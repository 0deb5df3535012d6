use dioscuri::address::Address;
use dioscuri::address::UrlParts;
use dioscuri::error::GeminiClientError;

fn address(host: &str, path: &str) -> Address {
    Address { host: host.to_string(), path: path.to_string() }
}

#[test]
fn request_line_of_a_root_address() {
    let address = Address::parse("gemini://example.org/").unwrap();
    assert_eq!(address.host, "example.org");
    assert_eq!(address.path, "/");
    assert_eq!(address.request_line(), "gemini://example.org/\r\n");
}

#[test]
fn address_without_a_path_asks_for_the_root() {
    let address = Address::parse("gemini://example.org").unwrap();
    assert_eq!(address.host, "example.org");
    assert_eq!(address.request_line(), "gemini://example.org/\r\n");
    assert_eq!(self::address("example.org", "").request_line(), "gemini://example.org/\r\n");
}

#[test]
fn path_always_begins_at_the_root() {
    assert_eq!(address("h", "docs/faq.gmi").request_line(), "gemini://h/docs/faq.gmi\r\n");
    assert_eq!(address("h", "/docs/faq.gmi").request_line(), "gemini://h/docs/faq.gmi\r\n");
    assert_eq!(address("h", "//x").request_line(), "gemini://h//x\r\n");
}

#[test]
fn request_line_keeps_the_path_and_drops_the_query() {
    let address = Address::parse("gemini://geminiprotocol.net/docs/faq.gmi?x=1#top").unwrap();
    assert_eq!(address.host, "geminiprotocol.net");
    assert_eq!(address.path, "/docs/faq.gmi");
    assert_eq!(address.request_line(), "gemini://geminiprotocol.net/docs/faq.gmi\r\n");
}

#[test]
fn every_request_line_ends_in_one_crlf() {
    for url in ["gemini://a", "gemini://a/", "gemini://a/b/c", "https://a.b/c d"] {
        let line = Address::parse(url).unwrap().request_line();
        assert!(line.starts_with("gemini://"), "{}", url);
        assert!(line.ends_with("\r\n"), "{}", url);
        assert_eq!(line.matches('\r').count(), 1, "{}", url);
        assert_eq!(line.matches('\n').count(), 1, "{}", url);
        let host = Address::parse(url).unwrap().host;
        assert!(line["gemini://".len() + host.len()..].starts_with('/'), "{}", url);
    }
}

#[test]
fn text_that_is_no_url_is_refused() {
    for url in ["", "example.org", "not a url", "//example.org/"] {
        let parsed = Address::parse(url);
        assert!(matches!(parsed, Err(GeminiClientError::UrlParseError(_))), "{:?}", url);
    }
}

#[test]
fn url_without_a_host_is_refused() {
    for url in ["data:text/plain,Stuff", "unix:/run/foo.socket", "mailto:a@example.org"] {
        let parsed = Address::parse(url);
        assert!(matches!(parsed, Err(GeminiClientError::NoHostError)), "{:?}", url);
    }
}

#[test]
fn parts_of_a_url_become_an_address() {
    let parts = UrlParts { host: Some("example.org".to_string()), path: "/a".to_string() };
    let address = Address::from_parts(Ok(parts)).unwrap();
    assert_eq!(address.host, "example.org");
    assert_eq!(address.path, "/a");
    let hostless = UrlParts { host: None, path: "/a".to_string() };
    assert!(matches!(Address::from_parts(Ok(hostless)), Err(GeminiClientError::NoHostError)));
    match Address::from_parts(Err(url::ParseError::EmptyHost)) {
        Err(GeminiClientError::UrlParseError(e)) => assert_eq!(e, url::ParseError::EmptyHost),
        other => panic!("{:?}", other.is_ok()),
    }
}

#[test]
fn socket_address_is_the_host_and_the_port() {
    assert_eq!(address("example.org", "/").socket_address(), "example.org:1965");
    assert_eq!(address("127.0.0.1", "/").socket_address(), "127.0.0.1:1965");
}

#[test]
fn target_names_the_server() {
    let target = address("example.org", "/").target().unwrap();
    assert_eq!(target.socket_address, "example.org:1965");
    assert_eq!(target.server_name.to_str(), "example.org");
    let numeric = address("127.0.0.1", "/").target().unwrap();
    assert_eq!(numeric.server_name.to_str(), "127.0.0.1");
}

#[test]
fn host_that_names_no_server_is_refused() {
    for host in ["", "bad host", "[::1]", "exa$mple.org", "-"] {
        let target = address(host, "/").target();
        assert!(matches!(target, Err(GeminiClientError::ConvertError(_))), "{:?}", host);
    }
}

#[test]
fn target_is_made_of_what_rustls_returned() {
    let here = address("example.org", "/a");
    let name = rustls::pki_types::ServerName::try_from("other.example".to_string());
    let target = here.target_from(name).unwrap();
    assert_eq!(target.server_name.to_str(), "other.example");
    assert_eq!(target.socket_address, "example.org:1965");
    let refused = rustls::pki_types::ServerName::try_from("no good".to_string());
    assert!(matches!(here.target_from(refused), Err(GeminiClientError::ConvertError(_))));
}
