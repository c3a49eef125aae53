use fitbit_rs::error::Error;
use fitbit_rs::executor::{bearer, AuthenticatedRequest, Phase, Step};

fn send(s: &str) -> Step {
    Step::Send { authorization: s.to_string() }
}

#[test]
fn bearer_header_value() {
    assert_eq!(bearer("tok1"), "Bearer tok1");
}

#[test]
fn success_hands_body_out() {
    let mut r = AuthenticatedRequest::new();
    assert_eq!(r.start(Some("tok1")), send("Bearer tok1"));
    assert_eq!(r.on_response(200, "{}".to_string()), Step::Done(Ok("{}".to_string())));
    assert_eq!((r.phase, r.sends, r.refreshes), (Phase::Finished, 1, 0));
}

#[test]
fn unauthorized_then_success_after_one_refresh() {
    let mut r = AuthenticatedRequest::new();
    assert_eq!(r.start(Some("tok1")), send("Bearer tok1"));
    assert_eq!(r.on_response(401, String::new()), Step::Refresh);
    assert_eq!(r.on_refreshed(Some("tok2")), send("Bearer tok2"));
    assert_eq!(r.on_response(200, "body".to_string()), Step::Done(Ok("body".to_string())));
    assert_eq!((r.phase, r.sends, r.refreshes), (Phase::Finished, 2, 1));
}

#[test]
fn unauthorized_twice_fails_without_third_attempt() {
    let mut r = AuthenticatedRequest::new();
    r.start(Some("tok1"));
    assert_eq!(r.on_response(401, String::new()), Step::Refresh);
    r.on_refreshed(Some("tok2"));
    assert_eq!(r.on_response(401, String::new()), Step::Done(Err(Error::AuthenticationFailed)));
    assert_eq!((r.phase, r.sends, r.refreshes), (Phase::Finished, 2, 1));
}

#[test]
fn failed_refresh_is_authentication_failure() {
    let mut r = AuthenticatedRequest::new();
    r.start(Some("tok1"));
    r.on_response(401, String::new());
    assert_eq!(r.on_refreshed(None), Step::Done(Err(Error::AuthenticationFailed)));
    assert_eq!(r.sends, 1);
}

#[test]
fn other_errors_are_not_retried() {
    let mut r = AuthenticatedRequest::new();
    r.start(Some("tok1"));
    assert_eq!(
        r.on_response(500, "oops".to_string()),
        Step::Done(Err(Error::Api { status: 500, body: "oops".to_string() }))
    );
    assert_eq!((r.phase, r.refreshes), (Phase::Finished, 0));
    let mut r = AuthenticatedRequest::new();
    r.start(Some("tok1"));
    assert_eq!(
        r.on_response(404, "none".to_string()),
        Step::Done(Err(Error::Api { status: 404, body: "none".to_string() }))
    );
}

#[test]
fn no_token_is_unauthenticated() {
    let mut r = AuthenticatedRequest::new();
    assert_eq!(r.start(None), Step::Done(Err(Error::Unauthenticated)));
    assert_eq!(r.sends, 0);
}
