//! One authenticated API request: send with the bearer token, and on a 401
//! refresh once and retry once.
use vstd::prelude::*;
use crate::error::Error;

verus! {

/// Where one authenticated request stands.
#[derive(Debug, Clone, Copy, PartialEq, Eq, Structural)]
pub enum Phase {
    /// Not sent yet.
    Ready,
    /// Sent once; waiting for the answer.
    Sent,
    /// Answered 401; waiting for the token cache to refresh.
    Refreshing,
    /// Sent again with the refreshed token; waiting for the answer.
    Resent,
    /// Done: the outcome has been handed out.
    Finished,
}

/// What the caller does next for a request.
#[derive(Debug, PartialEq, Eq)]
pub enum Step {
    /// Send the request with this `Authorization` header value.
    Send { authorization: String },
    /// Ask the token cache to refresh the credential.
    Refresh,
    /// The request is over, with the response body or a failure.
    Done(Result<String, Error>),
}

/// The header value that carries `token` as a bearer credential.
pub open spec fn bearer_spec(token: Seq<char>) -> Seq<char> {
    "Bearer "@ + token
}

/// A 2xx status.
pub open spec fn is_success(status: u16) -> bool {
    200 <= status <= 299
}

/// The status of an answer that rejects the credential.
pub const UNAUTHORIZED: u16 = 401;

/// The phase that follows an answer with `status` in phase `p`.
pub open spec fn phase_after_response(p: Phase, status: u16) -> Phase {
    if status == UNAUTHORIZED && p == Phase::Sent {
        Phase::Refreshing
    } else {
        Phase::Finished
    }
}

/// What follows an answer with `status` and `body` in phase `p`.
pub open spec fn step_after_response(p: Phase, status: u16, body: String) -> Step {
    if is_success(status) {
        Step::Done(Ok(body))
    } else if status == UNAUTHORIZED {
        if p == Phase::Sent {
            Step::Refresh
        } else {
            Step::Done(Err(Error::AuthenticationFailed))
        }
    } else {
        Step::Done(Err(Error::Api { status, body }))
    }
}

/// The phase that follows the token cache's answer to a refresh.
pub open spec fn phase_after_refresh(token: Option<Seq<char>>) -> Phase {
    if token is Some {
        Phase::Resent
    } else {
        Phase::Finished
    }
}

/// The `Authorization` header value that carries `token`.
pub fn bearer(token: &str) -> (r: String)
    ensures
        r@ == bearer_spec(token@),
{
    let mut r = String::from_str("Bearer ");
    r.append(token);
    r
}

/// The state of one authenticated request, with how often it was sent and
/// how often it asked for a refresh.
#[derive(Debug, Clone, Copy, PartialEq, Eq)]
pub struct AuthenticatedRequest {
    pub phase: Phase,
    pub sends: u64,
    pub refreshes: u64,
}

impl AuthenticatedRequest {
    /// The counts that each phase implies.
    pub open spec fn wf(&self) -> bool {
        match self.phase {
            Phase::Ready => self.sends == 0 && self.refreshes == 0,
            Phase::Sent => self.sends == 1 && self.refreshes == 0,
            Phase::Refreshing => self.sends == 1 && self.refreshes == 1,
            Phase::Resent => self.sends == 2 && self.refreshes == 1,
            Phase::Finished => self.sends <= 2 && self.refreshes <= 1,
        }
    }

    /// A request that has not been sent.
    pub fn new() -> (r: Self)
        ensures
            r.wf(),
            r.phase == Phase::Ready,
    {
        AuthenticatedRequest { phase: Phase::Ready, sends: 0, refreshes: 0 }
    }

    /// Starts the request with the token that the cache holds, if any.
    /// Without one the request fails as unauthenticated.
    pub fn start(&mut self, token: Option<&str>) -> (s: Step)
        requires
            old(self).wf(),
            old(self).phase == Phase::Ready,
        ensures
            final(self).wf(),
            match token {
                Some(t) => s matches Step::Send { authorization } && authorization@ == bearer_spec(t@),
                None => s == Step::Done(Err(Error::Unauthenticated)),
            },
            final(self).phase == (if token is Some { Phase::Sent } else { Phase::Finished }),
            final(self).sends == (if token is Some { 1u64 } else { 0u64 }),
            final(self).refreshes == 0,
    {
        match token {
            Some(t) => {
                *self = AuthenticatedRequest { phase: Phase::Sent, sends: 1, refreshes: 0 };
                Step::Send { authorization: bearer(t) }
            },
            None => {
                *self = AuthenticatedRequest { phase: Phase::Finished, sends: 0, refreshes: 0 };
                Step::Done(Err(Error::Unauthenticated))
            },
        }
    }

    /// Takes the answer to a send. A 2xx hands the body out; a first 401
    /// asks for a refresh; a 401 after the retry, or any other status,
    /// ends the request with a failure.
    pub fn on_response(&mut self, status: u16, body: String) -> (s: Step)
        requires
            old(self).wf(),
            old(self).phase == Phase::Sent || old(self).phase == Phase::Resent,
        ensures
            final(self).wf(),
            s == step_after_response(old(self).phase, status, body),
            final(self).phase == phase_after_response(old(self).phase, status),
            final(self).sends == old(self).sends,
            final(self).refreshes == (if final(self).phase == Phase::Refreshing {
                1u64
            } else {
                old(self).refreshes
            }),
    {
        if 200 <= status && status <= 299 {
            self.phase = Phase::Finished;
            Step::Done(Ok(body))
        } else if status == UNAUTHORIZED {
            if self.phase == Phase::Sent {
                self.phase = Phase::Refreshing;
                self.refreshes = 1;
                Step::Refresh
            } else {
                self.phase = Phase::Finished;
                Step::Done(Err(Error::AuthenticationFailed))
            }
        } else {
            self.phase = Phase::Finished;
            Step::Done(Err(Error::Api { status, body }))
        }
    }

    /// Takes the token cache's answer to the refresh: a new token is sent
    /// once more; none ends the request as an authentication failure.
    pub fn on_refreshed(&mut self, token: Option<&str>) -> (s: Step)
        requires
            old(self).wf(),
            old(self).phase == Phase::Refreshing,
        ensures
            final(self).wf(),
            final(self).phase == phase_after_refresh(match token {
                Some(t) => Some(t@),
                None => None,
            }),
            match token {
                Some(t) => s matches Step::Send { authorization } && authorization@ == bearer_spec(t@),
                None => s == Step::Done(Err(Error::AuthenticationFailed)),
            },
            final(self).sends == (if token is Some { 2u64 } else { 1u64 }),
            final(self).refreshes == 1,
    {
        match token {
            Some(t) => {
                self.phase = Phase::Resent;
                self.sends = 2;
                Step::Send { authorization: bearer(t) }
            },
            None => {
                self.phase = Phase::Finished;
                Step::Done(Err(Error::AuthenticationFailed))
            },
        }
    }
}

/// A request answered 401, whose refresh yields a token, and then answered
/// 2xx hands that body to the caller, having been sent twice and refreshed
/// once; one answered 401 again after the retry ends in
/// `AuthenticationFailed`, in the finished phase, from which nothing more
/// is sent.
pub proof fn lemma_retry_once(r: AuthenticatedRequest, status: u16, body: String, token: Seq<char>)
    requires
        r.wf(),
        r.phase == Phase::Resent,
    ensures
        step_after_response(Phase::Sent, UNAUTHORIZED, body) == Step::Refresh,
        phase_after_response(Phase::Sent, UNAUTHORIZED) == Phase::Refreshing,
        phase_after_refresh(Some(token)) == Phase::Resent,
        r.sends == 2 && r.refreshes == 1,
        is_success(status) ==> step_after_response(Phase::Resent, status, body) == Step::Done(
            Ok(body),
        ),
        step_after_response(Phase::Resent, UNAUTHORIZED, body) == Step::Done(
            Err(Error::AuthenticationFailed),
        ),
        phase_after_response(Phase::Resent, status) == Phase::Finished,
{
}

} // verus!
