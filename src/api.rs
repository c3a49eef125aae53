//! The routes of the body measurement endpoints.
use vstd::prelude::*;
use crate::error::Error;

verus! {

/// The API's base URL.
pub const BASE_URL: &'static str = "https://api.fitbit.com";

/// `input` resolved against `base` as a browser resolves a link, or `None`
/// where either does not parse.
pub uninterp spec fn url_join(base: Seq<char>, input: Seq<char>) -> Option<Seq<char>>;

/// Relies on `url::Url::parse` and `Url::join`: the URL that `input` names
/// relative to `base`, serialized.
#[verifier::external_body]
fn join_url(base: &str, input: &str) -> (r: Option<String>)
    ensures
        match r {
            Some(u) => url_join(base@, input@) == Some(u@),
            None => url_join(base@, input@) is None,
        },
{
    url::Url::parse(base).and_then(|b| b.join(input)).ok().map(|u| u.to_string())
}

/// The absolute URL of an API route.
pub fn absolute_url(route: &str) -> (r: Result<String, Error>)
    ensures
        match url_join(BASE_URL@, route@) {
            Some(u) => r matches Ok(v) && v@ == u,
            None => r == Err::<String, Error>(Error::Url),
        },
{
    match join_url(BASE_URL, route) {
        Some(u) => Ok(u),
        None => Err(Error::Url),
    }
}

/// A kind of body measurement log.
#[derive(Debug, Clone, Copy, PartialEq, Eq)]
pub enum BodyLog {
    Weight,
    Fat,
}

pub open spec fn body_log_name(kind: BodyLog) -> Seq<char> {
    match kind {
        BodyLog::Weight => "weight"@,
        BodyLog::Fat => "fat"@,
    }
}

/// The user segment of a route: the given user, or `-` for the user whose
/// token is used.
pub open spec fn user_segment(user_id: Option<Seq<char>>) -> Seq<char> {
    match user_id {
        Some(u) => u,
        None => "-"@,
    }
}

fn body_log_prefix(kind: BodyLog, user_id: Option<&str>) -> (r: String)
    ensures
        r@ == "/1/user/"@ + user_segment(
            match user_id {
                Some(u) => Some(u@),
                None => None,
            },
        ) + "/body/log/"@ + body_log_name(kind) + "/date/"@,
{
    let mut r = String::from_str("/1/user/");
    match user_id {
        Some(u) => r.append(u),
        None => r.append("-"),
    }
    r.append("/body/log/");
    match kind {
        BodyLog::Weight => r.append("weight"),
        BodyLog::Fat => r.append("fat"),
    }
    r.append("/date/");
    r
}

/// The route of one day's log: `/1/user/{user}/body/log/{kind}/date/{date}.json`.
pub fn body_log_route(kind: BodyLog, user_id: Option<&str>, date: &str) -> (r: String)
    ensures
        r@ == "/1/user/"@ + user_segment(
            match user_id {
                Some(u) => Some(u@),
                None => None,
            },
        ) + "/body/log/"@ + body_log_name(kind) + "/date/"@ + date@ + ".json"@,
{
    let mut r = body_log_prefix(kind, user_id);
    r.append(date);
    r.append(".json");
    r
}

/// The route of a range of days:
/// `/1/user/{user}/body/log/{kind}/date/{start}/{end}.json`.
pub fn body_log_range_route(kind: BodyLog, user_id: Option<&str>, start: &str, end: &str) -> (r: String)
    ensures
        r@ == "/1/user/"@ + user_segment(
            match user_id {
                Some(u) => Some(u@),
                None => None,
            },
        ) + "/body/log/"@ + body_log_name(kind) + "/date/"@ + start@ + "/"@ + end@ + ".json"@,
{
    let mut r = body_log_prefix(kind, user_id);
    r.append(start);
    r.append("/");
    r.append(end);
    r.append(".json");
    r
}

} // verus!
