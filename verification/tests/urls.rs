use tart_oauth::urls::{
    authorization_url, build_endpoint_url, token_url, UrlError, AUTH_BASE_URL, SCOPE,
};

#[test]
fn authorization_url_has_the_six_parameters_in_order() {
    let url = authorization_url(AUTH_BASE_URL, "cid", "http://localhost:8080", SCOPE, "123");
    assert_eq!(
        url,
        Ok("https://id.twitch.tv/oauth2/authorize?client_id=cid\
            &redirect_uri=http%3A%2F%2Flocalhost%3A8080&response_type=code\
            &scope=channel%3Amanage%3Aredemptions&force_verify=true&state=123"
            .to_string())
    );
}

#[test]
fn token_url_has_the_five_parameters_in_order() {
    let url = token_url(AUTH_BASE_URL, "cid", "sec", "http://localhost:8080", "the code");
    assert_eq!(
        url,
        Ok("https://id.twitch.tv/oauth2/token?client_id=cid&client_secret=sec\
            &redirect_uri=http%3A%2F%2Flocalhost%3A8080&code=the+code\
            &grant_type=authorization_code"
            .to_string())
    );
}

#[test]
fn endpoint_replaces_the_last_segment_of_the_base() {
    let pairs = vec![("a", "1"), ("b", "x y&z")];
    assert_eq!(
        build_endpoint_url("https://auth.example/oauth2/", "token", &pairs),
        Ok("https://auth.example/oauth2/token?a=1&b=x+y%26z".to_string())
    );
    assert_eq!(
        build_endpoint_url("https://auth.example/oauth2", "token", &pairs),
        Ok("https://auth.example/token?a=1&b=x+y%26z".to_string())
    );
}

#[test]
fn endpoint_without_pairs_has_no_query() {
    assert_eq!(
        build_endpoint_url("https://auth.example/oauth2/", "authorize", &vec![]),
        Ok("https://auth.example/oauth2/authorize".to_string())
    );
}

#[test]
fn endpoint_keeps_a_query_that_the_segment_brings() {
    let pairs = vec![("b", "2")];
    assert_eq!(
        build_endpoint_url("https://auth.example/", "t?a=1", &pairs),
        Ok("https://auth.example/t?a=1&b=2".to_string())
    );
}

#[test]
fn base_that_is_no_url_is_a_parse_error() {
    assert_eq!(
        authorization_url("not a url", "cid", "r", SCOPE, "1"),
        Err(UrlError::Parse(url::ParseError::RelativeUrlWithoutBase))
    );
    assert_eq!(
        token_url("http://[::1", "cid", "s", "r", "c"),
        Err(UrlError::Parse(url::ParseError::InvalidIpv6Address))
    );
}

#[test]
fn base_that_cannot_be_joined_is_a_parse_error() {
    assert_eq!(
        authorization_url("mailto:someone@example.com", "cid", "r", SCOPE, "1"),
        Err(UrlError::Parse(url::ParseError::RelativeUrlWithCannotBeABaseBase))
    );
}

#[test]
fn constants() {
    assert_eq!(AUTH_BASE_URL, "https://id.twitch.tv/oauth2/");
    assert_eq!(SCOPE, "channel:manage:redemptions");
}
