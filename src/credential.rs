//! The credential that the provider grants, and what it becomes after a refresh.
use vstd::prelude::*;

verus! {

/// A granted credential: an access token and what came with it.
#[derive(Debug, Clone)]
pub struct Credential {
    /// The bearer token; never empty.
    pub access_token: String,
    /// The token that buys a new access token without the user.
    pub refresh_token: Option<String>,
    /// The token type, `bearer` in practice.
    pub token_type: String,
    /// When the access token expires, in seconds since the Unix epoch.
    pub expires_at: Option<u64>,
    /// The scopes that the provider granted.
    pub scopes: Vec<String>,
}

/// A credential as plain values.
pub ghost struct CredentialModel {
    pub access_token: Seq<char>,
    pub refresh_token: Option<Seq<char>>,
    pub token_type: Seq<char>,
    pub expires_at: Option<u64>,
    pub scopes: Seq<Seq<char>>,
}

/// The view of an optional string.
pub open spec fn opt_view(o: Option<String>) -> Option<Seq<char>> {
    match o {
        Some(s) => Some(s@),
        None => None,
    }
}

/// The views of a list of strings.
pub open spec fn strings_view(v: Seq<String>) -> Seq<Seq<char>> {
    v.map_values(|s: String| s@)
}

impl View for Credential {
    type V = CredentialModel;

    open spec fn view(&self) -> CredentialModel {
        CredentialModel {
            access_token: self.access_token@,
            refresh_token: opt_view(self.refresh_token),
            token_type: self.token_type@,
            expires_at: self.expires_at,
            scopes: strings_view(self.scopes@),
        }
    }
}

impl CredentialModel {
    /// A credential always holds an access token.
    pub open spec fn wf(self) -> bool {
        self.access_token.len() > 0
    }
}

impl Credential {
    pub open spec fn wf(&self) -> bool {
        self@.wf()
    }
}

/// What the token endpoint answered to a successful exchange.
#[derive(Debug, Clone)]
pub struct TokenResponse {
    pub access_token: String,
    pub token_type: String,
    pub refresh_token: Option<String>,
    /// Lifetime of the access token in seconds.
    pub expires_in: Option<u64>,
    pub scopes: Vec<String>,
}

/// The expiry instant of a token granted at `now` for `expires_in` seconds,
/// saturating at the largest instant.
pub open spec fn expiry_of(now: u64, expires_in: Option<u64>) -> Option<u64> {
    match expires_in {
        Some(d) => Some(
            if now + d > u64::MAX {
                u64::MAX
            } else {
                (now + d) as u64
            },
        ),
        None => None,
    }
}

/// The credential that a token response grants at `now`. A provider that
/// answers a refresh without a new refresh token leaves the previous one
/// in force.
pub open spec fn granted(
    access_token: Seq<char>,
    token_type: Seq<char>,
    refresh_token: Option<Seq<char>>,
    expires_in: Option<u64>,
    scopes: Seq<Seq<char>>,
    now: u64,
    previous_refresh: Option<Seq<char>>,
) -> CredentialModel {
    CredentialModel {
        access_token,
        refresh_token: match refresh_token {
            Some(r) => Some(r),
            None => previous_refresh,
        },
        token_type,
        expires_at: expiry_of(now, expires_in),
        scopes,
    }
}

impl TokenResponse {
    /// The credential that this response grants at `now`.
    pub open spec fn grants(&self, now: u64, previous_refresh: Option<Seq<char>>) -> CredentialModel {
        granted(
            self.access_token@,
            self.token_type@,
            opt_view(self.refresh_token),
            self.expires_in,
            strings_view(self.scopes@),
            now,
            previous_refresh,
        )
    }

    /// Turns the response into a credential, received at `now` (seconds
    /// since the Unix epoch). `previous_refresh` is the refresh token of the
    /// credential being refreshed, kept when the response carries none.
    /// A response without an access token is a rejection by the provider.
    pub fn into_credential(self, now: u64, previous_refresh: Option<String>) -> (r: Result<
        Credential,
        crate::error::Error,
    >)
        ensures
            self.access_token@.len() == 0 <==> r is Err,
            r matches Err(e) ==> (e matches crate::error::Error::ProviderRejected { body } && body@
                == Seq::<char>::empty()),
            r matches Ok(c) ==> c.wf() && c@ == self.grants(now, opt_view(previous_refresh)),
    {
        if self.access_token.unicode_len() == 0 {
            return Err(crate::error::Error::ProviderRejected { body: String::new() });
        }
        let refresh_token = match self.refresh_token {
            Some(r) => Some(r),
            None => previous_refresh,
        };
        let expires_at = match self.expires_in {
            Some(d) => Some(now.saturating_add(d)),
            None => None,
        };
        Ok(Credential {
            access_token: self.access_token,
            refresh_token,
            token_type: self.token_type,
            expires_at,
            scopes: self.scopes,
        })
    }
}

} // verus!
