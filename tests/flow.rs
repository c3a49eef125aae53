use fitbit_rs::error::Error;
use fitbit_rs::flow::{
    callback_reply, parse_callback, refresh_form, request_target, token_answer, AuthConfig,
    Callback, PendingExchange,
};

fn pairs(v: &[(&str, &str)]) -> Vec<(String, String)> {
    v.iter().map(|(k, v)| (k.to_string(), v.to_string())).collect()
}

#[test]
fn request_target_is_second_part() {
    assert_eq!(
        request_target("GET /?code=ABC123&state=xyz HTTP/1.1\r\n").as_deref(),
        Some("/?code=ABC123&state=xyz")
    );
    assert_eq!(request_target("POST /cb HTTP/1.1").as_deref(), Some("/cb"));
    assert_eq!(request_target("GET"), None);
    assert_eq!(request_target("GET  HTTP/1.1"), None);
}

#[test]
fn parse_callback_reads_decoded_code_and_state() {
    let cb = parse_callback("GET /?code=ABC123&state=a%2Fb+c HTTP/1.1\r\n").unwrap();
    assert_eq!(cb.code, "ABC123");
    assert_eq!(cb.state, "a/b c");
    let cb = parse_callback("PUT /any/path?state=s1&code=c1&code=c2 HTTP/1.1").unwrap();
    assert_eq!(cb, Callback { code: "c1".to_string(), state: "s1".to_string() });
}

#[test]
fn parse_callback_without_code_is_malformed() {
    assert_eq!(parse_callback("GET /?state=xyz HTTP/1.1"), Err(Error::MalformedCallback));
    assert_eq!(parse_callback("GET /?code=1 HTTP/1.1"), Err(Error::MalformedCallback));
    assert_eq!(parse_callback(""), Err(Error::MalformedCallback));
}

#[test]
fn config_defaults() {
    let config = AuthConfig::new("id", "secret");
    assert_eq!(config.redirect_uri(), "http://127.0.0.1:8080/");
    assert_eq!(config.scopes.len(), 9);
    assert_eq!(config.scopes[0], "activity");
    assert_eq!(config.cache_path, None);
    let config = config.with_cache("/tmp/token.json");
    assert_eq!(config.cache_path.as_deref(), Some("/tmp/token.json"));
    assert_eq!(config.client_id, "id");
}

#[test]
fn authorize_url_carries_fresh_state() {
    let config = AuthConfig::new("CLIENT", "secret");
    let pending = PendingExchange::begin(&config).unwrap();
    assert_eq!(pending.csrf_token.len(), 22);
    let url = &pending.authorize_url;
    assert!(url.starts_with("https://www.fitbit.com/oauth2/authorize?"), "{}", url);
    assert!(url.contains("response_type=code"));
    assert!(url.contains("client_id=CLIENT"));
    assert!(url.contains(&format!("state={}", pending.csrf_token)));
    assert!(url.contains("redirect_uri=http%3A%2F%2F127.0.0.1%3A8080%2F"));
    assert!(url.contains("scope=activity+heartrate+location"));
    let other = PendingExchange::begin(&config).unwrap();
    assert_ne!(other.csrf_token, pending.csrf_token);
}

#[test]
fn authorize_url_with_bad_endpoint_fails() {
    let mut config = AuthConfig::new("CLIENT", "secret");
    config.authorize_endpoint = "not a url".to_string();
    assert_eq!(PendingExchange::begin(&config).unwrap_err(), Error::Url);
}

#[test]
fn callback_with_other_state_is_csrf_mismatch() {
    let config = AuthConfig::new("id", "secret");
    let pending = PendingExchange::begin(&config).unwrap();
    let line = "GET /?code=ABC123&state=forged HTTP/1.1";
    assert_eq!(pending.on_callback(&config, line), Err(Error::CsrfMismatch));
    let cb = Callback { code: "ABC123".to_string(), state: "forged".to_string() };
    assert_eq!(pending.verify(cb), Err(Error::CsrfMismatch));
}

#[test]
fn callback_with_sent_state_gives_code_exchange() {
    let config = AuthConfig::new("id", "secret");
    let pending = PendingExchange::begin(&config).unwrap();
    let line = format!("GET /?code=ABC123&state={} HTTP/1.1", pending.csrf_token);
    let form = pending.on_callback(&config, &line).unwrap();
    assert_eq!(
        form,
        pairs(&[
            ("grant_type", "authorization_code"),
            ("code", "ABC123"),
            ("redirect_uri", "http://127.0.0.1:8080/"),
            ("client_id", "id"),
            ("client_secret", "secret"),
        ])
    );
}

#[test]
fn refresh_form_fields() {
    let config = AuthConfig::new("id", "secret");
    assert_eq!(
        refresh_form(&config, &"ref1".to_string()),
        pairs(&[
            ("grant_type", "refresh_token"),
            ("refresh_token", "ref1"),
            ("client_id", "id"),
            ("client_secret", "secret"),
        ])
    );
}

#[test]
fn callback_reply_is_minimal_page() {
    assert_eq!(
        callback_reply(),
        "HTTP/1.1 200 OK\r\ncontent-length: 27\r\n\r\nGo back to your terminal :)"
    );
}

#[test]
fn begin_with_given_state() {
    let config = AuthConfig::new("CLIENT", "secret");
    let pending = PendingExchange::begin_with_state(&config, "abc".to_string()).unwrap();
    assert_eq!(pending.csrf_token, "abc");
    assert!(pending.authorize_url.ends_with(
        "?response_type=code&client_id=CLIENT&state=abc&redirect_uri=http%3A%2F%2F127.0.0.1%3A8080%2F&scope=activity+heartrate+location+nutrition+profile+settings+sleep+social+weight"
    ), "{}", pending.authorize_url);
    let mut bad = config.clone();
    bad.redirect_host = "[".to_string();
    assert_eq!(PendingExchange::begin_with_state(&bad, "abc".to_string()).unwrap_err(), Error::Url);
}

#[test]
fn csrf_token_alphabet() {
    let pending = PendingExchange::begin(&AuthConfig::new("id", "s")).unwrap();
    assert!(pending.csrf_token.chars().all(|c| c.is_ascii_alphanumeric() || c == '-' || c == '_'));
}

#[test]
fn token_answer_checks_status() {
    assert_eq!(token_answer(200, "{}".to_string()), Ok("{}".to_string()));
    assert_eq!(
        token_answer(400, "invalid_grant".to_string()),
        Err(Error::ProviderRejected { body: "invalid_grant".to_string() })
    );
    assert_eq!(
        token_answer(301, String::new()),
        Err(Error::ProviderRejected { body: String::new() })
    );
}
