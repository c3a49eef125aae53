//! The single in-process authority for the current credential. Loading and
//! refreshing are single-flight: while one is under way, every other caller
//! is told to wait for its outcome instead of starting another.
use vstd::prelude::*;
use crate::credential::{opt_view, Credential, TokenResponse};
use crate::error::Error;
use crate::flow::{refresh_form, refresh_form_spec, AuthConfig};
use crate::store::{decode, encode, encode_spec, is_document};

verus! {

/// The operation under way, if any.
#[derive(Debug, Clone, Copy, PartialEq, Eq, Structural)]
pub enum Pending {
    Idle,
    /// Reading the cache file or running the interactive flow.
    Loading,
    /// Trading the refresh token for a new credential.
    Refreshing,
}

/// A token handed to a caller, with the generation of the credential it
/// came from; the generation goes with a later refresh request.
#[derive(Debug, Clone, PartialEq, Eq)]
pub struct Grant {
    pub access_token: String,
    pub generation: u64,
}

/// What a caller who needs a token does next.
#[derive(Debug, PartialEq, Eq)]
pub enum LoadStep {
    /// A token is held.
    Ready(Grant),
    /// Another caller is loading; wait for it and ask again, handing back
    /// this count of finished loads.
    Wait(u64),
    /// Read the cache file at this path and hand its text back.
    ReadStore(String),
    /// Run the interactive flow and hand its credential back.
    Interactive,
    /// Loading failed.
    Failed(Error),
}

/// What the persisted copy of the credential needs.
#[derive(Debug, PartialEq, Eq)]
pub enum Persist {
    /// Write `document` to the cache file at `path`.
    Save { path: String, document: String },
    /// Remove the cache file at `path`.
    Clear { path: String },
    /// No cache file is configured.
    Nothing,
}

/// The kind of answer to a request for a token.
#[derive(Debug, Clone, Copy, PartialEq, Eq, Structural)]
pub enum LoadKind {
    Ready,
    Wait,
    Failed,
    Start,
}

/// The kind of answer to a refresh request.
#[derive(Debug, Clone, Copy, PartialEq, Eq, Structural)]
pub enum RefreshKind {
    Current,
    Wait,
    Start,
    Unavailable,
}

/// What a caller whose token was refused does next.
#[derive(Debug, PartialEq, Eq)]
pub enum RefreshStep {
    /// The credential has been replaced since that token was handed out.
    Current(Grant),
    /// Another caller is refreshing; wait for it and ask again.
    Wait,
    /// Post this form to the token endpoint and hand the answer back.
    Start(Vec<(String, String)>),
    /// No refresh is possible: there is no credential, or no refresh token.
    Unavailable,
}

/// The outcome of a refresh.
#[derive(Debug, PartialEq, Eq)]
pub struct Refreshed {
    /// The new token, or `None` where the refresh failed and the
    /// credential was dropped.
    pub grant: Option<Grant>,
    pub persist: Persist,
}

/// The holder of the current credential.
#[derive(Debug)]
pub struct TokenCache {
    pub credential: Option<Credential>,
    pub pending: Pending,
    /// Counts the credentials held so far, wrapping.
    pub generation: u64,
    /// Counts the loads that have ended, wrapping.
    pub loads: u64,
    /// How the last load that ended failed, if it failed.
    pub failure: Option<Error>,
}

/// How a request for a token is answered. `waited` is the count of
/// finished loads that the caller was handed with `Wait`, if it waited.
pub open spec fn load_decision(c: TokenCache, waited: Option<u64>) -> LoadKind {
    if c.credential is Some {
        LoadKind::Ready
    } else if c.pending != Pending::Idle {
        LoadKind::Wait
    } else if waited matches Some(n) && n != c.loads && c.failure is Some {
        LoadKind::Failed
    } else {
        LoadKind::Start
    }
}

/// The cache after a request for a token.
pub open spec fn after_load_request(c: TokenCache, waited: Option<u64>) -> TokenCache {
    if load_decision(c, waited) == LoadKind::Start {
        TokenCache { pending: Pending::Loading, ..c }
    } else {
        c
    }
}

/// How many of the callers `waits`, asking in turn, are made the loader.
pub open spec fn load_starts(c: TokenCache, waits: Seq<Option<u64>>) -> nat
    decreases waits.len(),
{
    if waits.len() == 0 {
        0
    } else {
        (if load_decision(c, waits[0]) == LoadKind::Start {
            1nat
        } else {
            0nat
        }) + load_starts(after_load_request(c, waits[0]), waits.drop_first())
    }
}

/// How a refresh request made with a token of generation `seen` is answered.
pub open spec fn refresh_decision(c: TokenCache, seen: u64) -> RefreshKind {
    if c.pending != Pending::Idle {
        RefreshKind::Wait
    } else {
        match c.credential {
            None => RefreshKind::Unavailable,
            Some(cr) => if cr.refresh_token is None {
                RefreshKind::Unavailable
            } else if c.generation != seen {
                RefreshKind::Current
            } else {
                RefreshKind::Start
            },
        }
    }
}

/// The cache after a refresh request made with generation `seen`.
pub open spec fn after_refresh_request(c: TokenCache, seen: u64) -> TokenCache {
    if refresh_decision(c, seen) == RefreshKind::Start {
        TokenCache { pending: Pending::Refreshing, ..c }
    } else {
        c
    }
}

/// How many of the callers `seens`, asking in turn, are told to start a
/// refresh.
pub open spec fn refresh_starts(c: TokenCache, seens: Seq<u64>) -> nat
    decreases seens.len(),
{
    if seens.len() == 0 {
        0
    } else {
        (if refresh_decision(c, seens[0]) == RefreshKind::Start {
            1nat
        } else {
            0nat
        }) + refresh_starts(after_refresh_request(c, seens[0]), seens.drop_first())
    }
}

/// What the persisted copy needs after the credential became `doc`'s.
pub open spec fn persist_save(config: &AuthConfig, p: Persist, doc: Seq<char>) -> bool {
    match config.cache_path {
        Some(path) => p matches Persist::Save { path: q, document } && q@ == path@ && document@
            == doc,
        None => p == Persist::Nothing,
    }
}

/// What the persisted copy needs after the credential was dropped.
pub open spec fn persist_clear(config: &AuthConfig, p: Persist) -> bool {
    match config.cache_path {
        Some(path) => p matches Persist::Clear { path: q } && q@ == path@,
        None => p == Persist::Nothing,
    }
}

fn save_for(config: &AuthConfig, c: &Credential) -> (p: Persist)
    ensures
        persist_save(config, p, encode_spec(c@)),
{
    match &config.cache_path {
        Some(path) => Persist::Save { path: path.clone(), document: encode(c) },
        None => Persist::Nothing,
    }
}

fn clear_for(config: &AuthConfig) -> (p: Persist)
    ensures
        persist_clear(config, p),
{
    match &config.cache_path {
        Some(path) => Persist::Clear { path: path.clone() },
        None => Persist::Nothing,
    }
}

impl TokenCache {
    /// A held credential is valid; a load runs only without a credential,
    /// and a refresh only with a refresh token.
    pub open spec fn wf(&self) -> bool {
        &&& (self.credential matches Some(c) ==> c.wf())
        &&& (self.pending == Pending::Loading ==> self.credential is None)
        &&& (self.pending == Pending::Refreshing ==> (self.credential matches Some(c)
            && c.refresh_token is Some))
    }

    /// An empty cache.
    pub fn new() -> (r: Self)
        ensures
            r.wf(),
            r.credential is None,
            r.pending == Pending::Idle,
            r.generation == 0,
            r.loads == 0,
            r.failure is None,
    {
        TokenCache { credential: None, pending: Pending::Idle, generation: 0, loads: 0, failure: None }
    }

    /// The credential held, if any.
    pub fn get(&self) -> (r: Option<&Credential>)
        ensures
            match self.credential {
                Some(c) => r == Some(&c),
                None => r is None,
            },
    {
        self.credential.as_ref()
    }

    fn grant(&self) -> (g: Grant)
        requires
            self.credential is Some,
        ensures
            g.access_token == self.credential->0.access_token,
            g.generation == self.generation,
    {
        let c = self.credential.as_ref().unwrap();
        Grant { access_token: c.access_token.clone(), generation: self.generation }
    }

    fn hold(&mut self, c: Credential)
        requires
            c.wf(),
        ensures
            final(self).credential == Some(c),
            final(self).pending == Pending::Idle,
            final(self).generation == old(self).generation.wrapping_add(1),
            final(self).loads == old(self).loads,
            final(self).failure == old(self).failure,
            final(self).wf(),
    {
        self.credential = Some(c);
        self.pending = Pending::Idle;
        self.generation = self.generation.wrapping_add(1);
    }

    /// Ends the load under way with a credential.
    fn load_succeeded(&mut self, c: Credential)
        requires
            old(self).pending == Pending::Loading,
            c.wf(),
        ensures
            final(self).credential == Some(c),
            final(self).pending == Pending::Idle,
            final(self).generation == old(self).generation.wrapping_add(1),
            final(self).loads == old(self).loads.wrapping_add(1),
            final(self).failure is None,
            final(self).wf(),
    {
        self.hold(c);
        self.loads = self.loads.wrapping_add(1);
        self.failure = None;
    }

    /// Ends the load under way with a failure.
    fn load_failed(&mut self, e: Error)
        requires
            old(self).wf(),
            old(self).pending == Pending::Loading,
        ensures
            final(self).credential is None,
            final(self).pending == Pending::Idle,
            final(self).generation == old(self).generation,
            final(self).loads == old(self).loads.wrapping_add(1),
            final(self).failure == Some(e),
            final(self).wf(),
    {
        self.pending = Pending::Idle;
        self.loads = self.loads.wrapping_add(1);
        self.failure = Some(e);
    }

    /// A caller needs a token; `waited` is what it was handed with `Wait`,
    /// if it waited. A token held is handed out; while another caller
    /// loads, this one waits; a caller that waited for a load that failed
    /// gets that load's failure; otherwise this caller becomes the loader
    /// and reads the cache file, or runs the interactive flow where no cache
    /// file is configured.
    pub fn begin_load(&mut self, config: &AuthConfig, waited: Option<u64>) -> (s: LoadStep)
        requires
            old(self).wf(),
        ensures
            final(self).wf(),
            *final(self) == after_load_request(*old(self), waited),
            match load_decision(*old(self), waited) {
                LoadKind::Ready => s matches LoadStep::Ready(g) && g.access_token == old(self).credential->0.access_token && g.generation == old(self).generation,
                LoadKind::Wait => s == LoadStep::Wait(old(self).loads),
                LoadKind::Failed => s == LoadStep::Failed(old(self).failure->0),
                LoadKind::Start => match config.cache_path {
                    Some(p) => s matches LoadStep::ReadStore(q) && q@ == p@,
                    None => s == LoadStep::Interactive,
                },
            },
    {
        if self.credential.is_some() {
            return LoadStep::Ready(self.grant());
        }
        if self.pending != Pending::Idle {
            return LoadStep::Wait(self.loads);
        }
        match (waited, &self.failure) {
            (Some(n), Some(e)) => {
                if n != self.loads {
                    return LoadStep::Failed(e.duplicate());
                }
            },
            _ => {},
        }
        self.pending = Pending::Loading;
        match &config.cache_path {
            Some(p) => LoadStep::ReadStore(p.clone()),
            None => LoadStep::Interactive,
        }
    }

    /// The loader hands back the cache file's text, or `None` where the
    /// file is absent. The document of a credential makes that credential
    /// held; an absent file sends the loader to the interactive flow;
    /// anything else ends the load with a deserialization error.
    pub fn on_stored(&mut self, text: Option<String>) -> (s: LoadStep)
        requires
            old(self).wf(),
            old(self).pending == Pending::Loading,
        ensures
            final(self).wf(),
            match text {
                None => s == LoadStep::Interactive && *final(self) == *old(self),
                Some(t) => if is_document(t@) {
                    &&& final(self).credential is Some
                    &&& encode_spec(final(self).credential->0@) == t@
                    &&& final(self).pending == Pending::Idle
                    &&& final(self).generation == old(self).generation.wrapping_add(1)
                    &&& final(self).loads == old(self).loads.wrapping_add(1)
                    &&& final(self).failure is None
                    &&& s matches LoadStep::Ready(g) && g.access_token == final(self).credential->0.access_token && g.generation == final(self).generation
                } else {
                    &&& s == LoadStep::Failed(Error::Deserialization)
                    &&& final(self).credential is None
                    &&& final(self).pending == Pending::Idle
                    &&& final(self).generation == old(self).generation
                    &&& final(self).loads == old(self).loads.wrapping_add(1)
                    &&& final(self).failure == Some(Error::Deserialization)
                },
            },
    {
        match text {
            None => LoadStep::Interactive,
            Some(t) => match decode(t.as_str()) {
                Ok(c) => {
                    self.load_succeeded(c);
                    LoadStep::Ready(self.grant())
                },
                Err(e) => {
                    self.load_failed(Error::Deserialization);
                    LoadStep::Failed(e)
                },
            },
        }
    }

    /// The loader hands back the credential that the interactive flow
    /// produced: it is held, and its document goes to the cache file.
    pub fn on_acquired(&mut self, config: &AuthConfig, c: Credential) -> (r: (Grant, Persist))
        requires
            old(self).wf(),
            old(self).pending == Pending::Loading,
            c.wf(),
        ensures
            final(self).wf(),
            final(self).credential == Some(c),
            final(self).pending == Pending::Idle,
            final(self).generation == old(self).generation.wrapping_add(1),
            final(self).loads == old(self).loads.wrapping_add(1),
            final(self).failure is None,
            r.0.access_token == c.access_token,
            r.0.generation == final(self).generation,
            persist_save(config, r.1, encode_spec(c@)),
    {
        let persist = save_for(config, &c);
        self.load_succeeded(c);
        (self.grant(), persist)
    }

    /// The loader gives up with `e`: the interactive flow failed. Callers
    /// that waited for this load get `e` too.
    pub fn on_acquire_failed(&mut self, e: Error)
        requires
            old(self).wf(),
            old(self).pending == Pending::Loading,
        ensures
            final(self).wf(),
            final(self).credential is None,
            final(self).pending == Pending::Idle,
            final(self).generation == old(self).generation,
            final(self).loads == old(self).loads.wrapping_add(1),
            final(self).failure == Some(e),
    {
        self.load_failed(e);
    }

    /// A caller's token of generation `seen` was refused. While another
    /// caller refreshes, this one waits; without a credential or a refresh
    /// token nothing can be done, and nothing is sent; where the credential
    /// has changed since, the current token is handed out; otherwise this
    /// caller becomes the refresher and posts the returned form.
    pub fn begin_refresh(&mut self, config: &AuthConfig, seen: u64) -> (s: RefreshStep)
        requires
            old(self).wf(),
        ensures
            final(self).wf(),
            *final(self) == after_refresh_request(*old(self), seen),
            match refresh_decision(*old(self), seen) {
                RefreshKind::Current => s matches RefreshStep::Current(g) && g.access_token
                    == old(self).credential->0.access_token && g.generation == old(self).generation,
                RefreshKind::Wait => s == RefreshStep::Wait,
                RefreshKind::Unavailable => s == RefreshStep::Unavailable,
                RefreshKind::Start => s matches RefreshStep::Start(form)
                    && crate::flow::pairs_view(form@) == refresh_form_spec(
                    config,
                    old(self).credential->0.refresh_token->0@,
                ),
            },
    {
        if self.pending != Pending::Idle {
            return RefreshStep::Wait;
        }
        match &self.credential {
            None => RefreshStep::Unavailable,
            Some(c) => match &c.refresh_token {
                None => RefreshStep::Unavailable,
                Some(r) => {
                    if self.generation != seen {
                        return RefreshStep::Current(self.grant());
                    }
                    let form = refresh_form(config, r);
                    self.pending = Pending::Refreshing;
                    RefreshStep::Start(form)
                },
            },
        }
    }

    /// The refresher hands back the token endpoint's answer, received at
    /// `now`, or `None` where the refresh failed. A new credential replaces
    /// the old one, keeping the old refresh token where the answer carries
    /// none, starts a new generation and is persisted; on failure the
    /// credential is dropped from memory and from the cache file, so that
    /// the dead refresh token is never tried again.
    pub fn finish_refresh(
        &mut self,
        config: &AuthConfig,
        answer: Option<TokenResponse>,
        now: u64,
    ) -> (r: Refreshed)
        requires
            old(self).wf(),
            old(self).pending == Pending::Refreshing,
        ensures
            final(self).wf(),
            final(self).pending == Pending::Idle,
            final(self).loads == old(self).loads,
            final(self).failure == old(self).failure,
            match answer {
                Some(a) if a.access_token@.len() > 0 => {
                    &&& final(self).credential is Some
                    &&& final(self).credential->0@ == a.grants(
                        now,
                        opt_view(old(self).credential->0.refresh_token),
                    )
                    &&& final(self).generation == old(self).generation.wrapping_add(1)
                    &&& persist_save(config, r.persist, encode_spec(final(self).credential->0@))
                    &&& r.grant matches Some(g) && g.access_token == final(self).credential->0.access_token && g.generation == final(self).generation
                },
                _ => {
                    &&& final(self).credential is None
                    &&& final(self).generation == old(self).generation
                    &&& r.grant is None
                    &&& persist_clear(config, r.persist)
                },
            },
    {
        let previous = match &self.credential {
            Some(c) => c.refresh_token.clone(),
            None => None,
        };
        match answer {
            Some(a) => match a.into_credential(now, previous) {
                Ok(c) => {
                    let persist = save_for(config, &c);
                    self.hold(c);
                    Refreshed { grant: Some(self.grant()), persist }
                },
                Err(_) => {
                    self.credential = None;
                    self.pending = Pending::Idle;
                    Refreshed { grant: None, persist: clear_for(config) }
                },
            },
            None => {
                self.credential = None;
                self.pending = Pending::Idle;
                Refreshed { grant: None, persist: clear_for(config) }
            },
        }
    }
}

/// However many callers ask for a refresh in turn before the outcome is
/// in, at most one of them is told to start it; none is while one is
/// already under way.
pub proof fn lemma_single_flight(c: TokenCache, seens: Seq<u64>)
    ensures
        refresh_starts(c, seens) <= 1,
        c.pending != Pending::Idle ==> refresh_starts(c, seens) == 0,
    decreases seens.len(),
{
    if seens.len() > 0 {
        let next = after_refresh_request(c, seens[0]);
        lemma_single_flight(next, seens.drop_first());
        if refresh_decision(c, seens[0]) == RefreshKind::Start {
            assert(next.pending == Pending::Refreshing);
        }
    }
}

/// A refresh that succeeded leaves a new generation, so every caller that
/// waited with the refreshed token's generation is handed the one new
/// token, and none starts another refresh; after one that failed, every
/// such caller is told that no refresh is possible.
pub proof fn lemma_waiters_converge(before: TokenCache, after: TokenCache, seen: u64)
    requires
        before.wf(),
        before.pending == Pending::Idle,
        refresh_decision(before, seen) == RefreshKind::Start,
        after.wf(),
        after.pending == Pending::Idle,
        after.credential is Some ==> after.generation == before.generation.wrapping_add(1),
    ensures
        after_refresh_request(after, seen) == after,
        after.credential matches Some(c) && c.refresh_token is Some ==> refresh_decision(after, seen)
            == RefreshKind::Current,
        after.credential matches Some(c) && c.refresh_token is None ==> refresh_decision(after, seen)
            == RefreshKind::Unavailable,
        after.credential is None ==> refresh_decision(after, seen) == RefreshKind::Unavailable,
{
    assert(before.generation == seen);
    assert(before.generation.wrapping_add(1) != before.generation);
}

/// A refresh request for a credential without a refresh token is answered
/// `Unavailable`, whatever generation the caller holds: no form goes to the
/// token endpoint and nothing changes.
pub proof fn lemma_no_refresh_token(c: TokenCache, seen: u64)
    requires
        c.wf(),
        c.credential matches Some(cr) && cr.refresh_token is None,
    ensures
        refresh_decision(c, seen) == RefreshKind::Unavailable,
        after_refresh_request(c, seen) == c,
{
}

/// However many callers ask for a token in turn while none is held, at
/// most one of them is made the loader; none is while a load is under way.
pub proof fn lemma_single_flight_load(c: TokenCache, waits: Seq<Option<u64>>)
    ensures
        load_starts(c, waits) <= 1,
        c.pending != Pending::Idle ==> load_starts(c, waits) == 0,
    decreases waits.len(),
{
    if waits.len() > 0 {
        let next = after_load_request(c, waits[0]);
        lemma_single_flight_load(next, waits.drop_first());
        if load_decision(c, waits[0]) == LoadKind::Start {
            assert(next.pending == Pending::Loading);
        }
    }
}

/// Once the load that callers waited for has ended, each of them gets its
/// outcome and none starts another: the token where it succeeded, the same
/// failure where it failed.
pub proof fn lemma_load_waiters_converge(c: TokenCache, waited: u64)
    requires
        c.pending == Pending::Idle,
        c.loads != waited,
        c.credential is Some || c.failure is Some,
    ensures
        after_load_request(c, Some(waited)) == c,
        load_decision(c, Some(waited)) == (if c.credential is Some {
            LoadKind::Ready
        } else {
            LoadKind::Failed
        }),
{
}

} // verus!
