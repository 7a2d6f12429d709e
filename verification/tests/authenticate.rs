use lifec_registry::plugins::authenticate::Authenticate;

#[test]
fn test_resolve_challenge() {
    let url = Authenticate::parse_challenge_header(
        r#"Bearer realm="https://host.io/oauth2/token",service="host.io",scope="repository:hello-world:pull""#,
    );
    assert_eq!(
        url,
        "https://host.io/oauth2/token?service=host.io&scope=repository:hello-world:pull"
    )
}

#[test]
fn challenge_keeps_push_pull_scopes() {
    let url = Authenticate::parse_challenge_header(
        r#"Bearer realm="https://r.io/oauth2/token",service="r.io",scope="repository:a:pull,push""#,
    );
    assert_eq!(url, "https://r.io/oauth2/token?service=r.io&scope=repository:a:pull,push");
    let url = Authenticate::parse_challenge_header(
        r#"Bearer realm="https://r.io/t",service="r.io",scope="repository:a:push,pull""#,
    );
    assert_eq!(url, "https://r.io/t?service=r.io&scope=repository:a:push,pull");
}

#[test]
fn challenge_url_has_no_quotes() {
    let url = Authenticate::parse_challenge_header(r#"Bearer realm="a"b"c",x="y""#);
    assert!(!url.contains('"'));
}

#[test]
fn password_grant_body_is_form_encoded() {
    let body = Authenticate::token_request_body(
        "service=r.io&scope=repository:a:pull",
        Some("r.io"),
        Some("user name"),
        Some("p@ss&word"),
        None,
    );
    assert_eq!(
        body.as_deref(),
        Some("service=r.io&scope=repository:a:pull&grant_type=password&username=user+name&password=p%40ss%26word")
    );
}

#[test]
fn refresh_token_grant_body() {
    let body = Authenticate::token_request_body("service=r.io", Some("r.io"), None, None, Some("tok"));
    assert_eq!(
        body.as_deref(),
        Some("service=r.io&grant_type=refresh_token&refresh_token=tok")
    );
}

#[test]
fn no_body_without_credentials_or_namespace() {
    assert_eq!(Authenticate::token_request_body("q", Some("r.io"), None, None, None), None);
    assert_eq!(Authenticate::token_request_body("q", None, Some("u"), Some("p"), Some("t")), None);
    assert_eq!(Authenticate::token_request_body("q", Some(""), Some("u"), Some("p"), None), None);
    assert_eq!(Authenticate::token_request_body("q", Some(""), None, None, Some("t")), None);
}

#[test]
fn challenge_body_uses_the_url_query() {
    let body = Authenticate::challenge_request_body(
        "https://host.io/oauth2/token?service=host.io&scope=repository:hello-world:pull",
        Some("host.io"),
        None,
        None,
        Some("tok"),
    );
    assert_eq!(
        body.as_deref(),
        Some("service=host.io&scope=repository:hello-world:pull&grant_type=refresh_token&refresh_token=tok")
    );
    let none = Authenticate::challenge_request_body("https://host.io/oauth2/token", Some("host.io"), None, None, Some("tok"));
    assert_eq!(none, None);
}

#[test]
fn api_and_bearer() {
    assert_eq!(Authenticate::api_to_use(None, Some("https://a".to_string())), Some("https://a".to_string()));
    assert_eq!(Authenticate::api_to_use(None, Some(String::new())), None);
    assert_eq!(Authenticate::api_to_use(Some("x".to_string()), Some("y".to_string())), Some("x".to_string()));
    assert!(Authenticate::starts_challenge(401));
    assert!(!Authenticate::starts_challenge(200));
    assert_eq!(Authenticate::bearer("abc"), "Bearer abc");
}
