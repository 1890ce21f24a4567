use tunnel_client::address::{domain_from, get_server_domain, normalize_server_url, AddressError};

#[test]
fn http_becomes_ws() {
    assert_eq!(normalize_server_url("http://example.org", true), "ws://example.org");
    assert_eq!(normalize_server_url("http://example.org", false), "ws://example.org");
}

#[test]
fn https_becomes_wss() {
    assert_eq!(normalize_server_url("https://example.org:7856/x", true), "wss://example.org:7856/x");
    assert_eq!(normalize_server_url("https://example.org", false), "wss://example.org");
}

#[test]
fn websocket_urls_stay() {
    assert_eq!(normalize_server_url("ws://localhost:7856", true), "ws://localhost:7856");
    assert_eq!(normalize_server_url("wss://port.example.org", false), "wss://port.example.org");
}

#[test]
fn bare_address_gets_a_scheme() {
    assert_eq!(normalize_server_url("port.example.org", true), "wss://port.example.org");
    assert_eq!(normalize_server_url("localhost:7856", false), "ws://localhost:7856");
    assert_eq!(normalize_server_url("", true), "wss://");
    assert_eq!(normalize_server_url("", false), "ws://");
}

#[test]
fn other_schemes_get_a_scheme_in_front() {
    assert_eq!(normalize_server_url("ftp://example.org", true), "wss://ftp://example.org");
    assert_eq!(normalize_server_url("HTTP://example.org", false), "ws://HTTP://example.org");
}

#[test]
fn scheme_is_replaced_wherever_it_occurs() {
    assert_eq!(
        normalize_server_url("http://example.org/?next=http://a", true),
        "ws://example.org/?next=ws://a"
    );
    assert_eq!(
        normalize_server_url("https://example.org/?next=https://a&b=http://c", true),
        "wss://example.org/?next=wss://a&b=http://c"
    );
    assert_eq!(
        normalize_server_url("example.org/?next=http://a", false),
        "ws://example.org/?next=http://a"
    );
}

#[test]
fn domain_of_a_websocket_url() {
    assert_eq!(get_server_domain("ws://localhost:7856"), Ok("localhost".to_string()));
    assert_eq!(get_server_domain("wss://port.example.org"), Ok("port.example.org".to_string()));
    assert_eq!(
        get_server_domain("wss://user:pw@Port.Example.ORG:443/path?q=1#f"),
        Ok("port.example.org".to_string())
    );
}

#[test]
fn domain_outside_ascii_is_written_in_ascii() {
    assert_eq!(
        get_server_domain("wss://b\u{fc}cher.example"),
        Ok("xn--bcher-kva.example".to_string())
    );
}

#[test]
fn address_that_is_no_url_has_no_domain() {
    assert_eq!(get_server_domain(""), Err(AddressError::NotAUrl));
    assert_eq!(get_server_domain("port.example.org"), Err(AddressError::NotAUrl));
    assert_eq!(get_server_domain("//port.example.org"), Err(AddressError::NotAUrl));
    assert_eq!(get_server_domain("ws://"), Err(AddressError::NotAUrl));
}

#[test]
fn address_with_an_ip_host_has_no_domain() {
    assert_eq!(get_server_domain("ws://127.0.0.1:7856"), Err(AddressError::NoDomain));
    assert_eq!(get_server_domain("wss://[::1]/"), Err(AddressError::NoDomain));
}

#[test]
fn address_without_host_has_no_domain() {
    assert_eq!(get_server_domain("mailto:op@example.org"), Err(AddressError::NoDomain));
    assert_eq!(get_server_domain("localhost:7856"), Err(AddressError::NoDomain));
}

#[test]
fn parsed_address_gives_its_domain() {
    assert_eq!(domain_from(None), Err(AddressError::NotAUrl));
    assert_eq!(domain_from(Some(None)), Err(AddressError::NoDomain));
    assert_eq!(domain_from(Some(Some("example.org".to_string()))), Ok("example.org".to_string()));
}
