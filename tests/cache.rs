use fitbit_rs::cache::{Grant, LoadStep, Pending, Persist, RefreshStep, TokenCache};
use fitbit_rs::credential::{Credential, TokenResponse};
use fitbit_rs::error::Error;
use fitbit_rs::flow::{AuthConfig, PendingExchange};
use fitbit_rs::store::decode;

const PATH: &str = "/tmp/fitbit/token.json";

fn config() -> AuthConfig {
    AuthConfig::new("id", "secret").with_cache(PATH)
}

fn response(access: &str, refresh: Option<&str>) -> TokenResponse {
    TokenResponse {
        access_token: access.to_string(),
        token_type: "bearer".to_string(),
        refresh_token: refresh.map(|r| r.to_string()),
        expires_in: None,
        scopes: Vec::new(),
    }
}

fn loaded(text: &str) -> (TokenCache, Grant) {
    let config = config();
    let mut cache = TokenCache::new();
    assert_eq!(cache.begin_load(&config, None), LoadStep::ReadStore(PATH.to_string()));
    match cache.on_stored(Some(text.to_string())) {
        LoadStep::Ready(g) => (cache, g),
        other => panic!("not loaded: {:?}", other),
    }
}

#[test]
fn interactive_flow_fills_empty_cache() {
    let config = config();
    let mut cache = TokenCache::new();
    assert_eq!(cache.begin_load(&config, None), LoadStep::ReadStore(PATH.to_string()));
    assert_eq!(cache.begin_load(&config, None), LoadStep::Wait(0));
    assert_eq!(cache.on_stored(None), LoadStep::Interactive);

    let pending = PendingExchange::begin(&config).unwrap();
    let line = format!("GET /?code=ABC123&state={} HTTP/1.1", pending.csrf_token);
    let form = pending.on_callback(&config, &line).unwrap();
    assert_eq!(form[1], ("code".to_string(), "ABC123".to_string()));

    let c = response("tok1", None).into_credential(1000, None).unwrap();
    assert_eq!(c.access_token, "tok1");
    assert_eq!(c.refresh_token, None);
    let (grant, persist) = cache.on_acquired(&config, c);
    assert_eq!(grant.access_token, "tok1");
    assert_eq!(
        persist,
        Persist::Save {
            path: PATH.to_string(),
            document: r#"{"access_token":"tok1","token_type":"bearer"}"#.to_string(),
        }
    );
    assert_eq!(cache.get().unwrap().access_token, "tok1");
    assert_eq!(cache.begin_load(&config, None), LoadStep::Ready(grant));
}

#[test]
fn refresh_keeps_old_refresh_token() {
    let config = config();
    let (mut cache, grant) =
        loaded(r#"{"access_token":"tok1","refresh_token":"ref1","token_type":"bearer"}"#);
    assert_eq!(grant.access_token, "tok1");
    let form = match cache.begin_refresh(&config, grant.generation) {
        RefreshStep::Start(form) => form,
        other => panic!("no refresh: {:?}", other),
    };
    assert_eq!(form[0], ("grant_type".to_string(), "refresh_token".to_string()));
    assert_eq!(form[1], ("refresh_token".to_string(), "ref1".to_string()));
    let done = cache.finish_refresh(&config, Some(response("tok2", None)), 0);
    assert_eq!(done.grant.as_ref().unwrap().access_token, "tok2");
    let c = cache.get().unwrap();
    assert_eq!(c.access_token, "tok2");
    assert_eq!(c.refresh_token.as_deref(), Some("ref1"));
    match done.persist {
        Persist::Save { path, document } => {
            assert_eq!(path, PATH);
            assert_eq!(
                document,
                r#"{"access_token":"tok2","refresh_token":"ref1","token_type":"bearer"}"#
            );
            assert_eq!(decode(&document).unwrap().refresh_token.as_deref(), Some("ref1"));
        }
        other => panic!("not saved: {:?}", other),
    }
}

#[test]
fn refresh_with_new_refresh_token_replaces_it() {
    let config = config();
    let (mut cache, grant) =
        loaded(r#"{"access_token":"tok1","refresh_token":"ref1","token_type":"bearer"}"#);
    cache.begin_refresh(&config, grant.generation);
    let mut answer = response("tok2", Some("ref2"));
    answer.expires_in = Some(3600);
    cache.finish_refresh(&config, Some(answer), 100);
    let c = cache.get().unwrap();
    assert_eq!(c.refresh_token.as_deref(), Some("ref2"));
    assert_eq!(c.expires_at, Some(3700));
}

#[test]
fn concurrent_refreshes_start_once() {
    let config = config();
    let (mut cache, grant) =
        loaded(r#"{"access_token":"tok1","refresh_token":"ref1","token_type":"bearer"}"#);
    let mut starts = 0;
    for _ in 0..5 {
        match cache.begin_refresh(&config, grant.generation) {
            RefreshStep::Start(_) => starts += 1,
            RefreshStep::Wait => {}
            other => panic!("unexpected: {:?}", other),
        }
    }
    assert_eq!(starts, 1);
    assert_eq!(cache.pending, Pending::Refreshing);
    let done = cache.finish_refresh(&config, Some(response("tok2", None)), 0);
    let fresh = done.grant.unwrap();
    for _ in 0..4 {
        assert_eq!(cache.begin_refresh(&config, grant.generation), RefreshStep::Current(fresh.clone()));
    }
    assert_eq!(cache.pending, Pending::Idle);
}

#[test]
fn failed_refresh_clears_memory_and_file() {
    let config = config();
    let (mut cache, grant) =
        loaded(r#"{"access_token":"tok1","refresh_token":"ref1","token_type":"bearer"}"#);
    cache.begin_refresh(&config, grant.generation);
    let done = cache.finish_refresh(&config, None, 0);
    assert_eq!(done.grant, None);
    assert_eq!(done.persist, Persist::Clear { path: PATH.to_string() });
    assert!(cache.get().is_none());
    assert_eq!(cache.begin_refresh(&config, grant.generation), RefreshStep::Unavailable);
    assert_eq!(cache.begin_load(&config, None), LoadStep::ReadStore(PATH.to_string()));
}

#[test]
fn refresh_without_refresh_token_sends_nothing() {
    let config = config();
    let (mut cache, grant) = loaded(r#"{"access_token":"tok1","token_type":"bearer"}"#);
    assert_eq!(cache.begin_refresh(&config, grant.generation), RefreshStep::Unavailable);
    assert_eq!(cache.pending, Pending::Idle);
    assert_eq!(cache.get().unwrap().access_token, "tok1");
}

#[test]
fn corrupt_cache_file_is_an_error() {
    let config = config();
    let mut cache = TokenCache::new();
    cache.begin_load(&config, None);
    assert_eq!(cache.on_stored(Some("{oops".to_string())), LoadStep::Failed(Error::Deserialization));
    assert_eq!(cache.pending, Pending::Idle);
}

#[test]
fn empty_access_token_is_rejected() {
    let err = response("", None).into_credential(0, None).unwrap_err();
    assert!(matches!(err, Error::ProviderRejected { .. }));
}

#[test]
fn no_cache_path_goes_interactive() {
    let config = AuthConfig::new("id", "secret");
    let mut cache = TokenCache::new();
    assert_eq!(cache.begin_load(&config, None), LoadStep::Interactive);
    cache.on_acquire_failed(Error::AuthorizationTimedOut);
    assert_eq!(cache.pending, Pending::Idle);
    assert_eq!(cache.begin_load(&config, None), LoadStep::Interactive);
    let c = Credential {
        access_token: "t".to_string(),
        refresh_token: None,
        token_type: "bearer".to_string(),
        expires_at: None,
        scopes: Vec::new(),
    };
    let (_, persist) = cache.on_acquired(&config, c);
    assert_eq!(persist, Persist::Nothing);
}

#[test]
fn waiters_share_a_failed_interactive_load() {
    let config = AuthConfig::new("id", "secret");
    let mut cache = TokenCache::new();
    assert_eq!(cache.begin_load(&config, None), LoadStep::Interactive);
    let waits: Vec<u64> = (0..3)
        .map(|_| match cache.begin_load(&config, None) {
            LoadStep::Wait(n) => n,
            other => panic!("not waiting: {:?}", other),
        })
        .collect();
    cache.on_acquire_failed(Error::CsrfMismatch);
    for n in waits {
        assert_eq!(cache.begin_load(&config, Some(n)), LoadStep::Failed(Error::CsrfMismatch));
    }
    assert_eq!(cache.pending, Pending::Idle);
    assert_eq!(cache.begin_load(&config, None), LoadStep::Interactive);
}

#[test]
fn waiters_share_a_successful_load() {
    let config = config();
    let mut cache = TokenCache::new();
    cache.begin_load(&config, None);
    let n = match cache.begin_load(&config, None) {
        LoadStep::Wait(n) => n,
        other => panic!("not waiting: {:?}", other),
    };
    let first = match cache.on_stored(Some(r#"{"access_token":"tok1","token_type":"bearer"}"#.to_string())) {
        LoadStep::Ready(g) => g,
        other => panic!("not loaded: {:?}", other),
    };
    assert_eq!(cache.begin_load(&config, Some(n)), LoadStep::Ready(first));
    assert_eq!(cache.loads, 1);
}

#[test]
fn stale_caller_without_refresh_token_gets_nothing() {
    let config = config();
    let (mut cache, grant) = loaded(r#"{"access_token":"tok1","token_type":"bearer"}"#);
    assert_eq!(
        cache.begin_refresh(&config, grant.generation.wrapping_add(5)),
        RefreshStep::Unavailable
    );
}

#[test]
fn refresh_starts_a_new_generation() {
    let config = config();
    let (mut cache, grant) =
        loaded(r#"{"access_token":"tok1","refresh_token":"ref1","token_type":"bearer"}"#);
    cache.begin_refresh(&config, grant.generation);
    let done = cache.finish_refresh(&config, Some(response("tok1", None)), 0);
    let fresh = done.grant.unwrap();
    assert_eq!(fresh.generation, grant.generation + 1);
    assert_eq!(cache.begin_refresh(&config, grant.generation), RefreshStep::Current(fresh));
}
