use vstd::prelude::*;

use std::path::PathBuf;

use crate::callback::{query_pairs, url_query_pairs, CallbackParams};
use crate::error::AuthError;

verus! {

/// std's PathBuf, carried through unopened: the certificate directory.
#[verifier::external_type_specification]
#[verifier::external_body]
pub struct ExPathBuf(PathBuf);

/// The provider's authorization endpoint.
pub const AUTHORIZATION_ENDPOINT: &'static str = "https://api.schwabapi.com/v1/oauth/authorize";

/// The provider's token endpoint.
pub const TOKEN_ENDPOINT: &'static str = "https://api.schwabapi.com/v1/oauth/token";

/// The only scope this client asks for.
pub const SCOPE: &'static str = "readonly";

/// Whether `s` parses as an absolute URL.
pub uninterp spec fn is_absolute_url(s: Seq<char>) -> bool;

/// The authorization request URL that oauth2 builds for these values.
pub uninterp spec fn authorization_url_of(
    endpoint: Seq<char>,
    client_id: Seq<char>,
    redirect: Seq<char>,
    scope: Seq<char>,
    state: Seq<char>,
) -> Seq<char>;

/// The query pairs of an authorization request, in the order oauth2 writes
/// them.
pub open spec fn authorization_pairs(
    client_id: Seq<char>,
    redirect: Seq<char>,
    scope: Seq<char>,
    state: Seq<char>,
) -> Seq<(Seq<char>, Seq<char>)> {
    seq![
        ("response_type"@, "code"@),
        ("client_id"@, client_id),
        ("state"@, state),
        ("redirect_uri"@, redirect),
        ("scope"@, scope),
    ]
}

/// Whether the authorization endpoint is an absolute URL that carries no
/// query pairs of its own.
pub open spec fn authorization_endpoint_valid() -> bool {
    &&& is_absolute_url(AUTHORIZATION_ENDPOINT@)
    &&& url_query_pairs(AUTHORIZATION_ENDPOINT@) == Some(Seq::<(Seq<char>, Seq<char>)>::empty())
}

/// Relies on url::Url::parse: whether the text parses as an absolute URL
/// (oauth2's AuthUrl, TokenUrl and RedirectUrl accept exactly these).
#[verifier::external_body]
fn parses_as_url(s: &str) -> (r: bool)
    ensures
        r == is_absolute_url(s@),
{
    url::Url::parse(s).is_ok()
}

/// Relies on oauth2::CsrfToken::new_random: sixteen random bytes in
/// unpadded URL-safe base64, hence twenty-two characters.
#[verifier::external_body]
fn fresh_csrf_state() -> (r: String)
    ensures
        r@.len() == 22,
{
    oauth2::CsrfToken::new_random().secret().clone()
}

/// Relies on oauth2's Client::authorize_url, add_scope and
/// AuthorizationRequest::url: the endpoint with `response_type=code`,
/// `client_id`, `state`, `redirect_uri` and `scope` appended as query pairs
/// (form_urlencoded, so decoding gives the values back; the scope pair is
/// written when the scope is not empty). AuthUrl::new and RedirectUrl::new
/// succeed on absolute URLs.
#[verifier::external_body]
fn authorization_url(
    endpoint: &str,
    client_id: &String,
    redirect: &String,
    scope: &str,
    state: &String,
) -> (r: String)
    requires
        is_absolute_url(endpoint@),
        is_absolute_url(redirect@),
        url_query_pairs(endpoint@) == Some(Seq::<(Seq<char>, Seq<char>)>::empty()),
        scope@.len() > 0,
    ensures
        r@ == authorization_url_of(endpoint@, client_id@, redirect@, scope@, state@),
        url_query_pairs(r@) == Some(authorization_pairs(client_id@, redirect@, scope@, state@)),
{
    let auth_url = oauth2::AuthUrl::new(endpoint.to_string()).unwrap();
    let redirect_url = oauth2::RedirectUrl::new(redirect.clone()).unwrap();
    let client = oauth2::basic::BasicClient::new(
        oauth2::ClientId::new(client_id.clone()), None, auth_url, None,
    ).set_redirect_uri(redirect_url);
    let state = oauth2::CsrfToken::new(state.clone());
    let (url, _) = client.authorize_url(move || state).add_scope(
        oauth2::Scope::new(scope.to_string()),
    ).url();
    url.to_string()
}

/// How long the local listener waits for the provider's redirect, in
/// milliseconds (five minutes).
pub const CALLBACK_WAIT_MS: u64 = 300_000;

/// How the wait for the provider's redirect ended.
#[derive(Debug, Clone)]
pub enum CallbackOutcome {
    /// A request with both parameters arrived.
    Received(CallbackParams),
    /// A request arrived without its `code` or `state`.
    Malformed,
    /// Nothing arrived within the wait window.
    TimedOut,
    /// The listener could not bind its port.
    BindFailed(String),
}

/// Decides what a callback outcome means for an attempt that sent
/// `expected_state`: the authorization code to exchange, or why there is
/// none. A code is handed on only when the returned state equals the
/// expected one, and then unchanged.
pub fn accept_callback(expected_state: &String, outcome: CallbackOutcome) -> (r: Result<
    String,
    AuthError,
>)
    ensures
        match outcome {
            CallbackOutcome::Received(p) => if p.state@ == expected_state@ {
                r matches Ok(code) && code@ == p.code@
            } else {
                r matches Err(AuthError::CsrfMismatch)
            },
            CallbackOutcome::Malformed => r matches Err(AuthError::MalformedCallback),
            CallbackOutcome::TimedOut => r matches Err(AuthError::CallbackTimeout),
            CallbackOutcome::BindFailed(m) => r matches Err(AuthError::Bind(e)) && e@ == m@,
        },
{
    match outcome {
        CallbackOutcome::Received(p) => {
            if p.state == *expected_state {
                Ok(p.code)
            } else {
                Err(AuthError::CsrfMismatch)
            }
        },
        CallbackOutcome::Malformed => Err(AuthError::MalformedCallback),
        CallbackOutcome::TimedOut => Err(AuthError::CallbackTimeout),
        CallbackOutcome::BindFailed(m) => Err(AuthError::Bind(m)),
    }
}

/// Client credentials and the redirect URL of the three-legged
/// authorization-code grant.
#[derive(Debug)]
pub struct Authorizer {
    client_id: String,
    secret: String,
    redirect_url: String,
    certs_dir: PathBuf,
}

impl Authorizer {
    #[verifier::type_invariant]
    spec fn urls_valid(&self) -> bool {
        &&& authorization_endpoint_valid()
        &&& is_absolute_url(TOKEN_ENDPOINT@)
        &&& is_absolute_url(self.redirect_url@)
    }

    pub closed spec fn certs_dir_spec(&self) -> PathBuf {
        self.certs_dir
    }

    pub closed spec fn client_id_spec(&self) -> Seq<char> {
        self.client_id@
    }

    pub closed spec fn secret_spec(&self) -> Seq<char> {
        self.secret@
    }

    pub closed spec fn redirect_url_spec(&self) -> Seq<char> {
        self.redirect_url@
    }

    /// Builds an authorizer. Fails, naming the offending text, when an
    /// endpoint or the redirect URL is not a well-formed absolute URL, or
    /// when the authorization endpoint carries query pairs of its own.
    pub fn new(app_key: String, secret: String, redirect_url: String, certs_dir: PathBuf) -> (r:
        Result<Authorizer, AuthError>)
        ensures
            r is Ok <==> authorization_endpoint_valid() && is_absolute_url(TOKEN_ENDPOINT@)
                && is_absolute_url(redirect_url@),
            r matches Ok(a) ==> a.client_id_spec() == app_key@ && a.secret_spec() == secret@
                && a.redirect_url_spec() == redirect_url@ && a.certs_dir_spec() == certs_dir,
            !authorization_endpoint_valid() ==> (r matches Err(AuthError::InvalidUrl(u)) && u@
                == AUTHORIZATION_ENDPOINT@),
            authorization_endpoint_valid() && !is_absolute_url(TOKEN_ENDPOINT@) ==> (
            r matches Err(AuthError::InvalidUrl(u)) && u@ == TOKEN_ENDPOINT@),
            authorization_endpoint_valid() && is_absolute_url(TOKEN_ENDPOINT@)
                && !is_absolute_url(redirect_url@) ==> (r matches Err(AuthError::InvalidUrl(u))
                && u@ == redirect_url@),
    {
        let endpoint_has_query = match query_pairs(AUTHORIZATION_ENDPOINT) {
            Some(pairs) => {
                proof {
                    if pairs.len() == 0 {
                        assert(crate::callback::pairs_view(pairs@) =~= Seq::<
                            (Seq<char>, Seq<char>),
                        >::empty());
                    } else {
                        assert(crate::callback::pairs_view(pairs@).len() != 0);
                        assert(crate::callback::pairs_view(pairs@) != Seq::<
                            (Seq<char>, Seq<char>),
                        >::empty());
                    }
                }
                pairs.len() != 0
            },
            None => true,
        };
        if !parses_as_url(AUTHORIZATION_ENDPOINT) || endpoint_has_query {
            return Err(AuthError::InvalidUrl(String::from_str(AUTHORIZATION_ENDPOINT)));
        }
        if !parses_as_url(TOKEN_ENDPOINT) {
            return Err(AuthError::InvalidUrl(String::from_str(TOKEN_ENDPOINT)));
        }
        if !parses_as_url(redirect_url.as_str()) {
            return Err(AuthError::InvalidUrl(redirect_url));
        }
        Ok(Authorizer { client_id: app_key, secret, redirect_url, certs_dir })
    }

    /// The authorization request URL that carries `state`. Its query pairs
    /// are exactly `response_type=code`, the client id, `state`, the
    /// redirect URL and the scope.
    pub fn authorization_url_for(&self, state: &String) -> (r: String)
        ensures
            r@ == authorization_url_of(
                AUTHORIZATION_ENDPOINT@,
                self.client_id_spec(),
                self.redirect_url_spec(),
                SCOPE@,
                state@,
            ),
            url_query_pairs(r@) == Some(
                authorization_pairs(self.client_id_spec(), self.redirect_url_spec(), SCOPE@, state@),
            ),
    {
        proof {
            use_type_invariant(self);
            reveal_strlit("readonly");
        }
        authorization_url(AUTHORIZATION_ENDPOINT, &self.client_id, &self.redirect_url, SCOPE, state)
    }

    /// A fresh CSRF state and the authorization request URL that carries it.
    pub fn auth_code_url(&self) -> (r: (String, String))
        ensures
            r.1@.len() == 22,
            r.0@ == authorization_url_of(
                AUTHORIZATION_ENDPOINT@,
                self.client_id_spec(),
                self.redirect_url_spec(),
                SCOPE@,
                r.1@,
            ),
            url_query_pairs(r.0@) == Some(
                authorization_pairs(self.client_id_spec(), self.redirect_url_spec(), SCOPE@, r.1@),
            ),
    {
        let state = fresh_csrf_state();
        let url = self.authorization_url_for(&state);
        (url, state)
    }

    pub fn client_id(&self) -> (r: &String)
        ensures
            r@ == self.client_id_spec(),
    {
        &self.client_id
    }

    pub fn secret(&self) -> (r: &String)
        ensures
            r@ == self.secret_spec(),
    {
        &self.secret
    }

    pub fn redirect_url(&self) -> (r: &String)
        ensures
            r@ == self.redirect_url_spec(),
    {
        &self.redirect_url
    }

    /// Directory holding the listener's TLS certificate and key.
    pub fn certs_dir(&self) -> (r: &PathBuf)
        ensures
            *r == self.certs_dir_spec(),
    {
        &self.certs_dir
    }
}

} // verus!
