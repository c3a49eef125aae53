//! The failures that the library reports to its caller.
use vstd::prelude::*;

verus! {

/// Every failure of the token lifecycle and of an authenticated request.
#[derive(Debug, Clone, PartialEq, Eq)]
pub enum Error {
    /// The cache file could not be read or written.
    Io { message: String },
    /// The cache file or a provider's answer is not a valid document.
    Deserialization,
    /// The callback's `state` differs from the one sent with the authorize URL.
    CsrfMismatch,
    /// No callback arrived before the deadline.
    AuthorizationTimedOut,
    /// The callback request lacks a request target, a `code` or a `state`.
    MalformedCallback,
    /// The authorize or token endpoint answered with an error.
    ProviderRejected { body: String },
    /// No credential is held and none could be obtained.
    Unauthenticated,
    /// The API still answered 401 after one refresh and retry.
    AuthenticationFailed,
    /// The API answered with a non-success status other than 401.
    Api { status: u16, body: String },
    /// A configured URL could not be parsed.
    Url,
}

impl Error {
    /// A copy of this error.
    pub fn duplicate(&self) -> (r: Error)
        ensures
            r == *self,
    {
        match self {
            Error::Io { message } => Error::Io { message: message.clone() },
            Error::Deserialization => Error::Deserialization,
            Error::CsrfMismatch => Error::CsrfMismatch,
            Error::AuthorizationTimedOut => Error::AuthorizationTimedOut,
            Error::MalformedCallback => Error::MalformedCallback,
            Error::ProviderRejected { body } => Error::ProviderRejected { body: body.clone() },
            Error::Unauthenticated => Error::Unauthenticated,
            Error::AuthenticationFailed => Error::AuthenticationFailed,
            Error::Api { status, body } => Error::Api { status: *status, body: body.clone() },
            Error::Url => Error::Url,
        }
    }
}

} // verus!
