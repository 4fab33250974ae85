use vstd::prelude::*;

verus! {

/// Every way an authorization attempt or a token operation can fail.
#[derive(Debug, Clone)]
pub enum AuthError {
    /// An endpoint or the redirect URL is not a well-formed absolute URL;
    /// the payload is the offending text.
    InvalidUrl(String),
    /// No callback reached the local listener within the wait window.
    CallbackTimeout,
    /// The callback's `state` differs from the one sent with the request.
    CsrfMismatch,
    /// The callback lacked a `code` or a `state` parameter.
    MalformedCallback,
    /// The local listener could not bind its port.
    Bind(String),
    /// The token endpoint answered without a refresh token.
    MissingRefreshToken,
    /// An expiry would not fit in a millisecond timestamp.
    TimestampOverflow,
    /// The token endpoint rejected the grant, or the request failed.
    TokenExchange(String),
}

} // verus!
