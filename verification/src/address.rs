//! The address of the relay.

use vstd::prelude::*;
use crate::text::{has_prefix, replace_all, replaced, starts_with};

verus! {

/// The address of the relay as a websocket URL. An address that begins with
/// `http://` or `https://` has that scheme, wherever it occurs in the
/// address, replaced by `ws://` or `wss://`. An address that then begins with
/// neither `ws://` nor `wss://` gets one of them put in front: `wss://` if the
/// connection is to be secure, else `ws://`.
pub open spec fn websocket_url(address: Seq<char>, secure: bool) -> Seq<char> {
    let plain = if has_prefix(address, "http://"@) {
        replaced(address, "http://"@, "ws://"@)
    } else {
        address
    };
    let both = if has_prefix(plain, "https://"@) {
        replaced(plain, "https://"@, "wss://"@)
    } else {
        plain
    };
    if has_prefix(both, "ws://"@) || has_prefix(both, "wss://"@) {
        both
    } else if secure {
        "wss://"@ + both
    } else {
        "ws://"@ + both
    }
}

/// A websocket URL begins with `ws://` or with `wss://`, whatever the
/// address was.
pub proof fn lemma_websocket_url_has_scheme(address: Seq<char>, secure: bool)
    ensures
        has_prefix(websocket_url(address, secure), "ws://"@) || has_prefix(
            websocket_url(address, secure),
            "wss://"@,
        ),
{
    let url = websocket_url(address, secure);
    let plain = if has_prefix(address, "http://"@) {
        replaced(address, "http://"@, "ws://"@)
    } else {
        address
    };
    let both = if has_prefix(plain, "https://"@) {
        replaced(plain, "https://"@, "wss://"@)
    } else {
        plain
    };
    if !(has_prefix(both, "ws://"@) || has_prefix(both, "wss://"@)) {
        if secure {
            assert(url.take("wss://"@.len() as int) =~= "wss://"@);
        } else {
            assert(url.take("ws://"@.len() as int) =~= "ws://"@);
        }
    }
}

/// Writes the address of the relay as a websocket URL.
pub fn normalize_server_url(address: &str, secure: bool) -> (url: String)
    ensures
        url@ == websocket_url(address@, secure),
{
    let plain = if starts_with(address, "http://") {
        replace_all(address, "http://", "ws://")
    } else {
        address.to_string()
    };
    let both = if starts_with(plain.as_str(), "https://") {
        replace_all(plain.as_str(), "https://", "wss://")
    } else {
        plain
    };
    if starts_with(both.as_str(), "ws://") || starts_with(both.as_str(), "wss://") {
        both
    } else if secure {
        let mut url = "wss://".to_string();
        url.append(both.as_str());
        url
    } else {
        let mut url = "ws://".to_string();
        url.append(both.as_str());
        url
    }
}

/// Why an address gives no host name.
#[derive(Clone, Copy, Debug, PartialEq, Eq, Structural)]
pub enum AddressError {
    /// The address is no absolute URL.
    NotAUrl,
    /// The host of the URL is missing, or is an IP address and no name.
    NoDomain,
}

/// What the `url` crate makes of an address: `None` if it is no absolute URL,
/// else the domain name of its host, if the host is one.
pub uninterp spec fn url_domain(address: Seq<char>) -> Option<Option<Seq<char>>>;

/// The view of what parsing an address gives.
pub open spec fn parsed_view(parsed: Option<Option<String>>) -> Option<Option<Seq<char>>> {
    match parsed {
        None => None,
        Some(None) => Some(None),
        Some(Some(domain)) => Some(Some(domain@)),
    }
}

/// Parses the address with `url::Url::parse` and asks the URL for its
/// `domain`. The result is a function of the address, named `url_domain`;
/// nothing more is claimed of it.
#[verifier::external_body]
fn parse_domain(address: &str) -> (parsed: Option<Option<String>>)
    ensures
        parsed_view(parsed) == url_domain(address@),
{
    match url::Url::parse(address) {
        Ok(parsed) => Some(parsed.domain().map(|domain| domain.to_string())),
        Err(_) => None,
    }
}

/// The host name that a parsed address gives.
pub open spec fn domain_of(parsed: Option<Option<Seq<char>>>) -> Result<Seq<char>, AddressError> {
    match parsed {
        None => Err(AddressError::NotAUrl),
        Some(None) => Err(AddressError::NoDomain),
        Some(Some(domain)) => Ok(domain),
    }
}

/// The view of a host name or the reason why there is none.
pub open spec fn domain_view(result: Result<String, AddressError>) -> Result<
    Seq<char>,
    AddressError,
> {
    match result {
        Ok(domain) => Ok(domain@),
        Err(error) => Err(error),
    }
}

/// The host name that a parsed address gives, or the reason why it gives
/// none.
pub fn domain_from(parsed: Option<Option<String>>) -> (result: Result<String, AddressError>)
    ensures
        domain_view(result) == domain_of(parsed_view(parsed)),
{
    match parsed {
        None => Err(AddressError::NotAUrl),
        Some(None) => Err(AddressError::NoDomain),
        Some(Some(domain)) => Ok(domain),
    }
}

/// The host name of the relay, which the forwarding process logs in to: the
/// domain of the address, if the address is an absolute URL whose host is a
/// domain name.
pub fn get_server_domain(address: &str) -> (result: Result<String, AddressError>)
    ensures
        domain_view(result) == domain_of(url_domain(address@)),
{
    domain_from(parse_domain(address))
}

} // verus!
