use auth_core::error::AppError;
use auth_core::header::{
    extract_host, extract_ip, extract_referer, extract_token, HeaderValue, RequestHead,
};

fn head() -> RequestHead {
    RequestHead {
        authorization: None,
        forwarded_for: None,
        real_ip: None,
        host: None,
        referer: None,
        peer_addr: None,
    }
}

fn text(value: &str) -> Option<HeaderValue> {
    Some(HeaderValue::Text(value.to_string()))
}

#[test]
fn bearer_token_is_what_follows_the_prefix() {
    let req = RequestHead { authorization: text("Bearer abc.def.ghi"), ..head() };
    assert_eq!(extract_token(&req), Ok("abc.def.ghi".to_string()));
}

#[test]
fn bearer_prefix_alone_gives_the_empty_token() {
    let req = RequestHead { authorization: text("Bearer "), ..head() };
    assert_eq!(extract_token(&req), Ok(String::new()));
}

#[test]
fn token_may_hold_any_characters() {
    let req = RequestHead { authorization: text("Bearer tök en"), ..head() };
    assert_eq!(extract_token(&req), Ok("tök en".to_string()));
}

#[test]
fn missing_authorization_is_unauthorized() {
    assert_eq!(extract_token(&head()), Err(AppError::Unauthorized));
}

#[test]
fn other_schemes_are_unauthorized() {
    for value in ["Basic dXNlcjpwdw==", "bearer abc", "Bearer", "Beare", "", " Bearer abc", "Bearerabc"] {
        let req = RequestHead { authorization: text(value), ..head() };
        assert_eq!(extract_token(&req), Err(AppError::Unauthorized), "{:?}", value);
    }
}

#[test]
fn unreadable_authorization_is_unauthorized() {
    let req = RequestHead { authorization: Some(HeaderValue::Opaque), ..head() };
    assert_eq!(extract_token(&req), Err(AppError::Unauthorized));
}

#[test]
fn forwarded_for_goes_first() {
    let req = RequestHead {
        forwarded_for: text("203.0.113.7"),
        real_ip: text("198.51.100.1"),
        peer_addr: Some("10.0.0.1".to_string()),
        ..head()
    };
    assert_eq!(extract_ip(&req), "203.0.113.7");
}

#[test]
fn real_ip_goes_before_the_peer() {
    let req = RequestHead {
        real_ip: text("198.51.100.1"),
        peer_addr: Some("10.0.0.1".to_string()),
        ..head()
    };
    assert_eq!(extract_ip(&req), "198.51.100.1");
}

#[test]
fn peer_address_is_the_last_resort() {
    let req = RequestHead { peer_addr: Some("10.0.0.1".to_string()), ..head() };
    assert_eq!(extract_ip(&req), "10.0.0.1");
    assert_eq!(extract_ip(&head()), "");
}

#[test]
fn unreadable_address_headers_stand_for_no_address() {
    let req = RequestHead {
        forwarded_for: Some(HeaderValue::Opaque),
        real_ip: text("198.51.100.1"),
        ..head()
    };
    assert_eq!(extract_ip(&req), "0.0.0.0");
    let req = RequestHead {
        real_ip: Some(HeaderValue::Opaque),
        peer_addr: Some("10.0.0.1".to_string()),
        ..head()
    };
    assert_eq!(extract_ip(&req), "0.0.0.0");
}

#[test]
fn host_and_referer() {
    let req = RequestHead { host: text("example.org"), referer: text("https://a/b"), ..head() };
    assert_eq!(extract_host(&req), "example.org");
    assert_eq!(extract_referer(&req), "https://a/b");
    assert_eq!(extract_host(&head()), "");
    assert_eq!(extract_referer(&head()), "");
    let req = RequestHead {
        host: Some(HeaderValue::Opaque),
        referer: Some(HeaderValue::Opaque),
        ..head()
    };
    assert_eq!(extract_host(&req), "");
    assert_eq!(extract_referer(&req), "");
}
