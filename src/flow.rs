//! The interactive authorization-code flow: the authorize URL, the loopback
//! callback and its anti-forgery check, and the forms sent to the token
//! endpoint.
use vstd::prelude::*;
use crate::error::Error;
use crate::text::{decimal, decimal_spec, push_char};

verus! {

/// The provider's authorize endpoint.
pub const AUTHORIZE_ENDPOINT: &'static str = "https://www.fitbit.com/oauth2/authorize";

/// The provider's token endpoint.
pub const TOKEN_ENDPOINT: &'static str = "https://api.fitbit.com/oauth2/token";

/// The loopback host on which the callback is awaited.
pub const REDIRECT_HOST: &'static str = "127.0.0.1";

/// The loopback port on which the callback is awaited.
pub const REDIRECT_PORT: u16 = 8080;

/// How long the flow waits for the callback, in seconds.
pub const CALLBACK_TIMEOUT_SECS: u64 = 180;

/// The page shown in the browser once the callback has arrived.
pub const CALLBACK_MESSAGE: &'static str = "Go back to your terminal :)";

/// Everything the token lifecycle needs to know about the application.
#[derive(Debug, Clone)]
pub struct AuthConfig {
    pub client_id: String,
    pub client_secret: String,
    /// Where the credential is kept between runs, if anywhere.
    pub cache_path: Option<String>,
    pub redirect_host: String,
    pub redirect_port: u16,
    /// The scopes asked for, in order.
    pub scopes: Vec<String>,
    pub authorize_endpoint: String,
    pub token_endpoint: String,
    pub callback_timeout_secs: u64,
}

/// The scopes that a new configuration asks for.
pub open spec fn default_scopes() -> Seq<Seq<char>> {
    seq![
        "activity"@,
        "heartrate"@,
        "location"@,
        "nutrition"@,
        "profile"@,
        "settings"@,
        "sleep"@,
        "social"@,
        "weight"@,
    ]
}

/// The loopback redirect URI for a host and port.
pub open spec fn redirect_uri_spec(host: Seq<char>, port: u16) -> Seq<char> {
    "http://"@ + host + ":"@ + decimal_spec(port as nat) + "/"@
}

impl AuthConfig {
    /// A configuration for the provider's endpoints, the loopback redirect
    /// and the full set of scopes, with no cache file.
    pub fn new(client_id: &str, client_secret: &str) -> (r: Self)
        ensures
            r.client_id@ == client_id@,
            r.client_secret@ == client_secret@,
            r.cache_path is None,
            r.redirect_host@ == REDIRECT_HOST@,
            r.redirect_port == REDIRECT_PORT,
            crate::credential::strings_view(r.scopes@) == default_scopes(),
            r.authorize_endpoint@ == AUTHORIZE_ENDPOINT@,
            r.token_endpoint@ == TOKEN_ENDPOINT@,
            r.callback_timeout_secs == CALLBACK_TIMEOUT_SECS,
    {
        let scopes = vec![
            String::from_str("activity"),
            String::from_str("heartrate"),
            String::from_str("location"),
            String::from_str("nutrition"),
            String::from_str("profile"),
            String::from_str("settings"),
            String::from_str("sleep"),
            String::from_str("social"),
            String::from_str("weight"),
        ];
        proof {
            assert(crate::credential::strings_view(scopes@) =~= default_scopes());
        }
        AuthConfig {
            client_id: String::from_str(client_id),
            client_secret: String::from_str(client_secret),
            cache_path: None,
            redirect_host: String::from_str(REDIRECT_HOST),
            redirect_port: REDIRECT_PORT,
            scopes,
            authorize_endpoint: String::from_str(AUTHORIZE_ENDPOINT),
            token_endpoint: String::from_str(TOKEN_ENDPOINT),
            callback_timeout_secs: CALLBACK_TIMEOUT_SECS,
        }
    }

    /// The same configuration, keeping the credential at `path`.
    pub fn with_cache(self, path: &str) -> (r: Self)
        ensures
            r.cache_path matches Some(p) && p@ == path@,
            r.client_id == self.client_id,
            r.client_secret == self.client_secret,
            r.redirect_host == self.redirect_host,
            r.redirect_port == self.redirect_port,
            r.scopes == self.scopes,
            r.authorize_endpoint == self.authorize_endpoint,
            r.token_endpoint == self.token_endpoint,
            r.callback_timeout_secs == self.callback_timeout_secs,
    {
        AuthConfig { cache_path: Some(String::from_str(path)), ..self }
    }

    /// The URI to which the provider sends the browser back.
    pub fn redirect_uri(&self) -> (r: String)
        ensures
            r@ == redirect_uri_spec(self.redirect_host@, self.redirect_port),
    {
        let mut r = String::from_str("http://");
        r.append(self.redirect_host.as_str());
        r.append(":");
        let port = decimal(self.redirect_port as u64);
        r.append(port.as_str());
        r.append("/");
        r
    }
}

/// A separator between the parts of an HTTP request line.
pub open spec fn is_separator(c: char) -> bool {
    c == ' ' || c == '\t' || c == '\r' || c == '\n'
}

/// The first index at or after `i` that holds a separator, or the end.
pub open spec fn part_end(s: Seq<char>, i: int) -> int
    recommends
        0 <= i <= s.len(),
    decreases s.len() - i,
{
    if i >= s.len() || i < 0 {
        i
    } else if is_separator(s[i]) {
        i
    } else {
        part_end(s, i + 1)
    }
}

/// The request target of an HTTP request line (`GET /?code=.. HTTP/1.1`):
/// what stands between the first separator and the next one.
pub open spec fn request_target_spec(line: Seq<char>) -> Option<Seq<char>> {
    let a = part_end(line, 0);
    if a >= line.len() {
        None
    } else {
        let b = part_end(line, a + 1);
        if b == a + 1 {
            None
        } else {
            Some(line.subrange(a + 1, b))
        }
    }
}

proof fn lemma_part_end_bounds(s: Seq<char>, i: int)
    requires
        0 <= i <= s.len(),
    ensures
        i <= part_end(s, i) <= s.len(),
        part_end(s, i) < s.len() ==> is_separator(s[part_end(s, i)]),
    decreases s.len() - i,
{
    if i < s.len() && !is_separator(s[i]) {
        lemma_part_end_bounds(s, i + 1);
    }
}

/// The index of the first separator at or after `start`, or the length.
fn find_part_end(line: &str, start: usize) -> (r: usize)
    requires
        start <= line@.len(),
    ensures
        r == part_end(line@, start as int),
{
    let n = line.unicode_len();
    let mut i: usize = start;
    while i < n
        invariant
            n == line@.len(),
            start <= i <= n,
            part_end(line@, start as int) == part_end(line@, i as int),
        decreases n - i,
    {
        let c = line.get_char(i);
        if c == ' ' || c == '\t' || c == '\r' || c == '\n' {
            return i;
        }
        i = i + 1;
    }
    i
}

/// The request target of an HTTP request line, if it has one.
pub fn request_target(line: &str) -> (r: Option<String>)
    ensures
        match r {
            Some(t) => request_target_spec(line@) == Some(t@),
            None => request_target_spec(line@) is None,
        },
{
    let n = line.unicode_len();
    let a = find_part_end(line, 0);
    proof {
        lemma_part_end_bounds(line@, 0);
    }
    if a >= n {
        return None;
    }
    let b = find_part_end(line, a + 1);
    proof {
        lemma_part_end_bounds(line@, a + 1);
    }
    if b == a + 1 {
        return None;
    }
    Some(String::from_str(line.substring_char(a + 1, b)))
}

/// The name/value pairs of a URL's query, percent-decoded and in order, or
/// `None` where the URL does not parse.
pub uninterp spec fn url_query_pairs(url: Seq<char>) -> Option<Seq<(Seq<char>, Seq<char>)>>;

/// The views of a list of string pairs.
pub open spec fn pairs_view(v: Seq<(String, String)>) -> Seq<(Seq<char>, Seq<char>)> {
    v.map_values(|p: (String, String)| (p.0@, p.1@))
}

/// Relies on `url::Url::parse` and `Url::query_pairs`: the query's
/// name/value pairs of a URL, decoded, in order; `None` where it does not
/// parse.
#[verifier::external_body]
fn query_pairs(url: &str) -> (r: Option<Vec<(String, String)>>)
    ensures
        match r {
            Some(v) => url_query_pairs(url@) == Some(pairs_view(v@)),
            None => url_query_pairs(url@) is None,
        },
{
    match url::Url::parse(url) {
        Ok(u) => Some(u.query_pairs().map(|(k, v)| (k.into_owned(), v.into_owned())).collect()),
        Err(_) => None,
    }
}

/// The value of the first pair named `key`.
pub open spec fn first_value(pairs: Seq<(Seq<char>, Seq<char>)>, key: Seq<char>) -> Option<
    Seq<char>,
>
    decreases pairs.len(),
{
    if pairs.len() == 0 {
        None
    } else if pairs[0].0 == key {
        Some(pairs[0].1)
    } else {
        first_value(pairs.drop_first(), key)
    }
}

/// The value of the first pair named `key`, if any.
pub fn find_value(pairs: &Vec<(String, String)>, key: &String) -> (r: Option<String>)
    ensures
        match r {
            Some(v) => first_value(pairs_view(pairs@), key@) == Some(v@),
            None => first_value(pairs_view(pairs@), key@) is None,
        },
{
    let ghost all = pairs_view(pairs@);
    let mut i: usize = 0;
    assert(all.subrange(0, all.len() as int) =~= all);
    while i < pairs.len()
        invariant
            0 <= i <= pairs@.len(),
            all == pairs_view(pairs@),
            all.len() == pairs@.len(),
            first_value(all, key@) == first_value(all.subrange(i as int, all.len() as int), key@),
        decreases pairs.len() - i,
    {
        let ghost rest = all.subrange(i as int, all.len() as int);
        assert(rest.len() > 0);
        assert(rest[0] == (pairs@[i as int].0@, pairs@[i as int].1@));
        let same = pairs[i].0.eq(key);
        if same {
            assert(rest[0].0 == key@);
            assert(first_value(rest, key@) == Some(rest[0].1));
            return Some(pairs[i].1.clone());
        }
        assert(first_value(rest, key@) == first_value(rest.drop_first(), key@));
        assert(rest.drop_first() =~= all.subrange(i + 1, all.len() as int));
        i = i + 1;
    }
    None
}

/// The `code` and `state` that the provider's redirect carries.
#[derive(Debug, Clone, PartialEq, Eq)]
pub struct Callback {
    pub code: String,
    pub state: String,
}

/// The absolute URL of a request target received on the loopback listener.
pub open spec fn callback_url(target: Seq<char>) -> Seq<char> {
    "http://localhost"@ + target
}

/// The callback that a request line carries: the first `code` and the first
/// `state` of its target's query.
pub open spec fn callback_spec(line: Seq<char>) -> Option<(Seq<char>, Seq<char>)> {
    match request_target_spec(line) {
        None => None,
        Some(t) => match url_query_pairs(callback_url(t)) {
            None => None,
            Some(pairs) => match (first_value(pairs, "code"@), first_value(pairs, "state"@)) {
                (Some(c), Some(s)) => Some((c, s)),
                _ => None,
            },
        },
    }
}

/// Reads the `code` and `state` out of the request line that the browser
/// sent to the loopback listener, whatever its method and path.
pub fn parse_callback(line: &str) -> (r: Result<Callback, Error>)
    ensures
        match r {
            Ok(cb) => callback_spec(line@) == Some((cb.code@, cb.state@)),
            Err(e) => callback_spec(line@) is None && e == Error::MalformedCallback,
        },
{
    let target = match request_target(line) {
        Some(t) => t,
        None => return Err(Error::MalformedCallback),
    };
    let mut url = String::from_str("http://localhost");
    url.append(target.as_str());
    let pairs = match query_pairs(url.as_str()) {
        Some(p) => p,
        None => return Err(Error::MalformedCallback),
    };
    let code = find_value(&pairs, &String::from_str("code"));
    let state = find_value(&pairs, &String::from_str("state"));
    match (code, state) {
        (Some(code), Some(state)) => Ok(Callback { code, state }),
        _ => Err(Error::MalformedCallback),
    }
}

/// The HTTP response that tells the browser to go back to the terminal.
pub open spec fn callback_reply_spec() -> Seq<char> {
    "HTTP/1.1 200 OK\r\ncontent-length: "@ + decimal_spec(CALLBACK_MESSAGE@.len()) + "\r\n\r\n"@
        + CALLBACK_MESSAGE@
}

/// The HTTP response sent back to the browser once the callback has arrived.
pub fn callback_reply() -> (r: String)
    ensures
        r@ == callback_reply_spec(),
{
    let mut r = String::from_str("HTTP/1.1 200 OK\r\ncontent-length: ");
    let len = CALLBACK_MESSAGE.unicode_len();
    let n = decimal(len as u64);
    r.append(n.as_str());
    r.append("\r\n\r\n");
    r.append(CALLBACK_MESSAGE);
    r
}

/// A character of the URL-safe base64 alphabet.
pub open spec fn is_base64url(c: char) -> bool {
    ('A' <= c <= 'Z') || ('a' <= c <= 'z') || ('0' <= c <= '9') || c == '-' || c == '_'
}

/// Relies on `oauth2::CsrfToken::new_random`: 16 random bytes, base64url
/// encoded without padding, which makes 22 characters of that alphabet.
#[verifier::external_body]
fn random_state() -> (r: String)
    ensures
        r@.len() == 22,
        forall|i: int| 0 <= i < r@.len() ==> is_base64url(#[trigger] r@[i]),
{
    oauth2::CsrfToken::new_random().secret().clone()
}

/// The authorize URL that oauth2 builds for an endpoint, client, redirect
/// URI, scopes and state, or `None` where the endpoint or the redirect URI
/// does not parse.
pub uninterp spec fn authorize_url_text(
    endpoint: Seq<char>,
    client_id: Seq<char>,
    redirect_uri: Seq<char>,
    scopes: Seq<Seq<char>>,
    state: Seq<char>,
) -> Option<Seq<char>>;

/// Scopes joined by single spaces.
pub open spec fn space_joined(ss: Seq<Seq<char>>) -> Seq<char>
    decreases ss.len(),
{
    if ss.len() == 0 {
        Seq::empty()
    } else if ss.len() == 1 {
        ss[0]
    } else {
        space_joined(ss.drop_last()) + seq![' '] + ss.last()
    }
}

/// The query pairs of an authorize request, in the order in which oauth2
/// appends them; the scope pair is left out when the joined scopes are empty.
pub open spec fn authorize_pairs(
    client_id: Seq<char>,
    redirect_uri: Seq<char>,
    scopes: Seq<Seq<char>>,
    state: Seq<char>,
) -> Seq<(Seq<char>, Seq<char>)> {
    seq![
        ("response_type"@, "code"@),
        ("client_id"@, client_id),
        ("state"@, state),
        ("redirect_uri"@, redirect_uri),
    ] + if space_joined(scopes).len() > 0 {
        seq![("scope"@, space_joined(scopes))]
    } else {
        Seq::empty()
    }
}

/// The query of `url` parses and ends with the pairs `tail`.
pub open spec fn query_ends_with(url: Seq<char>, tail: Seq<(Seq<char>, Seq<char>)>) -> bool {
    url_query_pairs(url) matches Some(ps) && ps.len() >= tail.len() && ps.subrange(
        ps.len() - tail.len(),
        ps.len() as int,
    ) == tail
}

/// Relies on `oauth2::AuthUrl::new`, `oauth2::RedirectUrl::new` and
/// `BasicClient::authorize_url` with `AuthorizationRequest::add_scopes` and
/// `url`: the authorize URL carrying `response_type=code`, the client id,
/// the state, the redirect URI and the space-joined scopes.
#[verifier::external_body]
fn authorize_url(
    endpoint: &str,
    client_id: &str,
    redirect_uri: &str,
    scopes: &Vec<String>,
    state: &str,
) -> (r: Option<String>)
    ensures
        match r {
            Some(u) => authorize_url_text(endpoint@, client_id@, redirect_uri@, crate::credential::strings_view(scopes@), state@) == Some(u@),
            None => authorize_url_text(endpoint@, client_id@, redirect_uri@, crate::credential::strings_view(scopes@), state@) is None,
        },
        r matches Some(u) ==> query_ends_with(
            u@,
            authorize_pairs(client_id@, redirect_uri@, crate::credential::strings_view(scopes@), state@),
        ),
{
    let auth = oauth2::AuthUrl::new(endpoint.to_owned()).ok()?;
    let redirect = oauth2::RedirectUrl::new(redirect_uri.to_owned()).ok()?;
    let client = oauth2::basic::BasicClient::new(oauth2::ClientId::new(client_id.to_owned()), None, auth, None)
        .set_redirect_uri(redirect);
    let state = oauth2::CsrfToken::new(state.to_owned());
    let request = client.authorize_url(move || state);
    let (url, _) = request.add_scopes(scopes.iter().map(|s| oauth2::Scope::new(s.clone()))).url();
    Some(url.to_string())
}

/// The authorize URL that a configuration and a state make, if any.
pub open spec fn authorize_text_for(config: &AuthConfig, state: Seq<char>) -> Option<Seq<char>> {
    authorize_url_text(
        config.authorize_endpoint@,
        config.client_id@,
        redirect_uri_spec(config.redirect_host@, config.redirect_port),
        crate::credential::strings_view(config.scopes@),
        state,
    )
}

/// One interactive flow in progress: the anti-forgery state that went out
/// with the authorize URL. It lives until the callback has been checked.
#[derive(Debug, Clone)]
pub struct PendingExchange {
    pub csrf_token: String,
    pub authorize_url: String,
}

impl PendingExchange {
    /// Starts a flow with `csrf_token` as its state: builds the authorize
    /// URL that carries it. Fails with `Url` exactly where oauth2 cannot
    /// build that URL, because the configured endpoint or redirect URI does
    /// not parse.
    pub fn begin_with_state(config: &AuthConfig, csrf_token: String) -> (r: Result<PendingExchange, Error>)
        ensures
            r is Ok <==> authorize_text_for(config, csrf_token@) is Some,
            r matches Ok(p) ==> p.csrf_token == csrf_token && authorize_text_for(config, csrf_token@)
                == Some(p.authorize_url@) && query_ends_with(
                p.authorize_url@,
                authorize_pairs(
                    config.client_id@,
                    redirect_uri_spec(config.redirect_host@, config.redirect_port),
                    crate::credential::strings_view(config.scopes@),
                    csrf_token@,
                ),
            ),
            r matches Err(e) ==> e == Error::Url,
    {
        let redirect = config.redirect_uri();
        match authorize_url(
            config.authorize_endpoint.as_str(),
            config.client_id.as_str(),
            redirect.as_str(),
            &config.scopes,
            csrf_token.as_str(),
        ) {
            Some(authorize_url) => Ok(PendingExchange { csrf_token, authorize_url }),
            None => Err(Error::Url),
        }
    }

    /// Starts a flow: draws a fresh 22-character state and builds the
    /// authorize URL that carries it.
    pub fn begin(config: &AuthConfig) -> (r: Result<PendingExchange, Error>)
        ensures
            r matches Ok(p) ==> p.csrf_token@.len() == 22 && (forall|i: int|
                0 <= i < p.csrf_token@.len() ==> is_base64url(#[trigger] p.csrf_token@[i]))
                && authorize_text_for(
                config,
                p.csrf_token@,
            ) == Some(p.authorize_url@) && query_ends_with(
                p.authorize_url@,
                authorize_pairs(
                    config.client_id@,
                    redirect_uri_spec(config.redirect_host@, config.redirect_port),
                    crate::credential::strings_view(config.scopes@),
                    p.csrf_token@,
                ),
            ),
            r matches Err(e) ==> e == Error::Url && exists|s: Seq<char>|
                s.len() == 22 && #[trigger] authorize_text_for(config, s) is None,
    {
        let csrf_token = random_state();
        let ghost drawn = csrf_token@;
        let r = PendingExchange::begin_with_state(config, csrf_token);
        proof {
            if r is Err {
                assert(drawn.len() == 22 && authorize_text_for(config, drawn) is None);
            }
        }
        r
    }

    /// Checks the callback against the state that went out: the code comes
    /// back only where the two states are equal character for character.
    pub fn verify(&self, callback: Callback) -> (r: Result<String, Error>)
        ensures
            callback.state@ == self.csrf_token@ <==> r is Ok,
            r matches Ok(code) ==> code == callback.code,
            r matches Err(e) ==> e == Error::CsrfMismatch,
    {
        if callback.state.eq(&self.csrf_token) {
            Ok(callback.code)
        } else {
            Err(Error::CsrfMismatch)
        }
    }

    /// Takes the request line that reached the loopback listener. Where it
    /// carries a `code` and the state that went out, the form that exchanges
    /// the code at the token endpoint comes back; a different state is
    /// `CsrfMismatch`, and no form is built.
    pub fn on_callback(&self, config: &AuthConfig, line: &str) -> (r: Result<Vec<(String, String)>, Error>)
        ensures
            match r {
                Ok(form) => callback_outcome(self.csrf_token@, config, line@) == Ok::<
                    Seq<(Seq<char>, Seq<char>)>,
                    Error,
                >(pairs_view(form@)),
                Err(e) => callback_outcome(self.csrf_token@, config, line@) == Err::<
                    Seq<(Seq<char>, Seq<char>)>,
                    Error,
                >(e),
            },
    {
        let callback = match parse_callback(line) {
            Ok(cb) => cb,
            Err(e) => return Err(e),
        };
        let code = match self.verify(callback) {
            Ok(code) => code,
            Err(e) => return Err(e),
        };
        Ok(code_form(config, &code))
    }
}

/// The form that exchanges an authorization code for a credential.
pub open spec fn code_form_spec(config: &AuthConfig, code: Seq<char>) -> Seq<(Seq<char>, Seq<char>)> {
    seq![
        ("grant_type"@, "authorization_code"@),
        ("code"@, code),
        ("redirect_uri"@, redirect_uri_spec(config.redirect_host@, config.redirect_port)),
        ("client_id"@, config.client_id@),
        ("client_secret"@, config.client_secret@),
    ]
}

/// The form that trades a refresh token for a new credential.
pub open spec fn refresh_form_spec(config: &AuthConfig, refresh_token: Seq<char>) -> Seq<(Seq<char>, Seq<char>)> {
    seq![
        ("grant_type"@, "refresh_token"@),
        ("refresh_token"@, refresh_token),
        ("client_id"@, config.client_id@),
        ("client_secret"@, config.client_secret@),
    ]
}

/// The form, sent url-encoded to the token endpoint, that exchanges `code`.
pub fn code_form(config: &AuthConfig, code: &String) -> (r: Vec<(String, String)>)
    ensures
        pairs_view(r@) == code_form_spec(config, code@),
{
    let r = vec![
        (String::from_str("grant_type"), String::from_str("authorization_code")),
        (String::from_str("code"), code.clone()),
        (String::from_str("redirect_uri"), config.redirect_uri()),
        (String::from_str("client_id"), config.client_id.clone()),
        (String::from_str("client_secret"), config.client_secret.clone()),
    ];
    assert(pairs_view(r@) =~= code_form_spec(config, code@));
    r
}

/// The form, sent url-encoded to the token endpoint, that trades
/// `refresh_token` for a new credential.
pub fn refresh_form(config: &AuthConfig, refresh_token: &String) -> (r: Vec<(String, String)>)
    ensures
        pairs_view(r@) == refresh_form_spec(config, refresh_token@),
{
    let r = vec![
        (String::from_str("grant_type"), String::from_str("refresh_token")),
        (String::from_str("refresh_token"), refresh_token.clone()),
        (String::from_str("client_id"), config.client_id.clone()),
        (String::from_str("client_secret"), config.client_secret.clone()),
    ];
    assert(pairs_view(r@) =~= refresh_form_spec(config, refresh_token@));
    r
}

/// What a flow that sent `csrf` does with a request line: the form that
/// exchanges the callback's code, or the failure.
pub open spec fn callback_outcome(csrf: Seq<char>, config: &AuthConfig, line: Seq<char>) -> Result<
    Seq<(Seq<char>, Seq<char>)>,
    Error,
> {
    match callback_spec(line) {
        None => Err(Error::MalformedCallback),
        Some((code, state)) => if state == csrf {
            Ok(code_form_spec(config, code))
        } else {
            Err(Error::CsrfMismatch)
        },
    }
}

/// A callback whose state differs from the one that went out with the
/// authorize URL is refused as `CsrfMismatch`, and no code exchange is
/// built; one that carries that state yields the exchange of its code.
pub proof fn lemma_csrf_guard(
    csrf: Seq<char>,
    config: &AuthConfig,
    line: Seq<char>,
    code: Seq<char>,
    state: Seq<char>,
)
    requires
        callback_spec(line) == Some((code, state)),
    ensures
        state != csrf ==> callback_outcome(csrf, config, line) == Err::<
            Seq<(Seq<char>, Seq<char>)>,
            Error,
        >(Error::CsrfMismatch),
        state == csrf ==> callback_outcome(csrf, config, line) == Ok::<
            Seq<(Seq<char>, Seq<char>)>,
            Error,
        >(code_form_spec(config, code)),
{
}

/// What the token endpoint's answer with `status` and `body` yields: the
/// body to decode on a 2xx, the provider's rejection otherwise.
pub fn token_answer(status: u16, body: String) -> (r: Result<String, Error>)
    ensures
        crate::executor::is_success(status) ==> r == Ok::<String, Error>(body),
        !crate::executor::is_success(status) ==> r == Err::<String, Error>(
            Error::ProviderRejected { body },
        ),
{
    if 200 <= status && status <= 299 {
        Ok(body)
    } else {
        Err(Error::ProviderRejected { body })
    }
}

} // verus!
