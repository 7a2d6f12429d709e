use lifec_registry::error::ErrorKind;
use lifec_registry::http::HttpMethod;
use lifec_registry::proxy::auth::{AuthResponse, OAuthToken};
use lifec_registry::proxy::login::{login_error_response, LoginBody, LoginResponse};

#[test]
fn unauthorized_response() {
    let r = AuthResponse::unauthorized();
    assert_eq!(r.trace_id, "${trace_id}");
    assert!(!r.success);
    assert!(r.data.is_none());
    assert_eq!(r.status_code(), 401);
}

#[test]
fn authorize_gives_host_the_refresh_token() {
    let r = AuthResponse::authorize(String::from("host.io"), String::from("refresh"));
    assert!(r.success);
    assert_eq!(r.status_code(), 200);
    let auths = &r.data.as_ref().unwrap().auths;
    assert_eq!(auths.len(), 1);
    assert_eq!(auths[0].0, "host.io");
    assert_eq!(auths[0].1.username, "00000000-0000-0000-0000-000000000000");
    assert_eq!(auths[0].1.password, "refresh");
}

#[test]
fn login_response_carries_credentials() {
    let r = AuthResponse::login("host.io", "user", "pass");
    assert!(r.success);
    let auths = &r.data.as_ref().unwrap().auths;
    assert_eq!(auths.len(), 1);
    assert_eq!(auths[0].0, "host.io");
    assert_eq!(auths[0].1.username, "user");
    assert_eq!(auths[0].1.password, "pass");
}

#[test]
fn oauth_token_prefers_refresh_token() {
    let both = OAuthToken { host: String::from("h"), access_token: Some(String::from("a")), refresh_token: Some(String::from("r")) };
    assert_eq!(both.token(), "r");
    assert_eq!(both.host(), "h");
    let access = OAuthToken { host: String::from("h"), access_token: Some(String::from("a")), refresh_token: None };
    assert_eq!(access.token(), "a");
    let none = OAuthToken { host: String::from("h"), access_token: None, refresh_token: None };
    assert_eq!(none.token(), "");
}

#[test]
fn oauth_token_bound_to_uri_host() {
    let t = OAuthToken { host: String::new(), access_token: Some(String::from("a")), refresh_token: None };
    let t = t.for_host(Some("registry.io"));
    assert_eq!(t.host, "registry.io");
    assert_eq!(t.access_token.as_deref(), Some("a"));
    let kept = t.for_host(None);
    assert_eq!(kept.host, "registry.io");
}

#[test]
fn token_exchange_status() {
    assert!(OAuthToken::check_exchange_status(200).is_ok());
    assert!(OAuthToken::check_exchange_status(204).is_ok());
    let e = OAuthToken::check_exchange_status(403).err().unwrap();
    assert_eq!(e.kind, ErrorKind::ExternalDependency(403));
    let e = OAuthToken::check_exchange_status(301).err().unwrap();
    assert_eq!(e.kind, ErrorKind::ExternalDependency(301));
    let m = OAuthToken::missing_challenge();
    assert_eq!(m.kind, ErrorKind::InvalidOperation);
    assert_eq!(m.message, "The remote uri did not return a challenge header");
}

#[test]
fn login_only_accepts_put() {
    assert!(LoginBody::check_method(HttpMethod::Put).is_ok());
    for m in [HttpMethod::Get, HttpMethod::Post, HttpMethod::Delete, HttpMethod::Head] {
        let e = LoginBody::check_method(m).err().unwrap();
        assert_eq!(e.kind, ErrorKind::InvalidOperation);
        assert_eq!(e.message, "Only PUT method is supportted");
    }
}

#[test]
fn login_responses() {
    let done = LoginResponse::completed(true);
    assert!(done.overwritten && done.error.is_none());
    assert_eq!(done.status_code(), 200);
    let e = LoginBody::check_method(HttpMethod::Get).err().unwrap();
    let r = login_error_response(Err(e));
    assert!(!r.overwritten);
    assert_eq!(r.status_code(), 405);
    let kept = login_error_response(Ok(LoginResponse::completed(false)));
    assert!(!kept.overwritten && kept.error.is_none());
}

#[test]
fn auth_responses_have_one_entry_per_host() {
    let r = AuthResponse::login("h", "u", "p");
    let auths = &r.data.as_ref().unwrap().auths;
    let mut hosts: Vec<&str> = auths.iter().map(|(h, _)| h.as_str()).collect();
    hosts.dedup();
    assert_eq!(hosts.len(), auths.len());
}
