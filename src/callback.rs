use vstd::prelude::*;

use crate::error::AuthError;

verus! {

/// What the provider's redirect carried back to the local listener.
#[derive(Debug, Clone, PartialEq, Eq)]
pub struct CallbackParams {
    pub code: String,
    pub state: String,
}

/// Origin put before a request target so that it reads as a full URL.
pub const CALLBACK_ORIGIN: &'static str = "http://localhost";

pub const CONFIRMATION_PREFIX: &'static str = "Schwab returned the following code:\n";

pub const CONFIRMATION_SUFFIX: &'static str = "\nYou can now safely close this browser window.";

/// Page served when the redirect lacks its parameters.
pub const MALFORMED_CALLBACK_PAGE: &'static str =
    "The authorization callback was missing its code or state. Please try again.";

/// The decoded query pairs of `url`, in order, or `None` when `url` does not
/// parse as an absolute URL.
pub uninterp spec fn url_query_pairs(url: Seq<char>) -> Option<Seq<(Seq<char>, Seq<char>)>>;

pub open spec fn pairs_view(pairs: Seq<(String, String)>) -> Seq<(Seq<char>, Seq<char>)> {
    pairs.map_values(|p: (String, String)| (p.0@, p.1@))
}

/// Relies on url::Url::parse and Url::query_pairs: the percent-decoded
/// name/value pairs of the URL's query, in order of appearance.
#[verifier::external_body]
pub(crate) fn query_pairs(url: &str) -> (r: Option<Vec<(String, String)>>)
    ensures
        match r {
            Some(v) => url_query_pairs(url@) == Some(pairs_view(v@)),
            None => url_query_pairs(url@) is None,
        },
{
    url::Url::parse(url).ok().map(
        |u| u.query_pairs().map(|(k, v)| (k.into_owned(), v.into_owned())).collect(),
    )
}

/// Page served to a request for any other path than the redirect's.
pub const NOT_FOUND_PAGE: &'static str = "Not found.";

/// The path of `url`, or `None` when `url` does not parse as an absolute URL.
pub uninterp spec fn url_path_of(url: Seq<char>) -> Option<Seq<char>>;

/// Relies on url::Url::parse and Url::path: the URL's path component.
#[verifier::external_body]
fn url_path(url: &str) -> (r: Option<String>)
    ensures
        match r {
            Some(p) => url_path_of(url@) == Some(p@),
            None => url_path_of(url@) is None,
        },
{
    url::Url::parse(url).ok().map(|u| u.path().to_string())
}

/// Whether the request target `target` asks for the path of `redirect_url`,
/// the only path on which the listener accepts a callback.
pub fn targets_redirect_path(target: &str, redirect_url: &str) -> (r: bool)
    ensures
        r == (url_path_of(CALLBACK_ORIGIN@ + target@) is Some && url_path_of(
            CALLBACK_ORIGIN@ + target@,
        ) == url_path_of(redirect_url@)),
{
    let url = String::from_str(CALLBACK_ORIGIN).concat(target);
    match (url_path(url.as_str()), url_path(redirect_url)) {
        (Some(requested), Some(expected)) => requested == expected,
        _ => false,
    }
}

/// The value of the first pair named `key`, looking from position `i` on.
pub open spec fn first_value_from(pairs: Seq<(Seq<char>, Seq<char>)>, key: Seq<char>, i: int) -> Option<
    Seq<char>,
>
    decreases pairs.len() - i,
{
    if i < 0 || i >= pairs.len() {
        None
    } else if pairs[i].0 == key {
        Some(pairs[i].1)
    } else {
        first_value_from(pairs, key, i + 1)
    }
}

/// The value of the first pair named `key`.
pub open spec fn first_value(pairs: Seq<(Seq<char>, Seq<char>)>, key: Seq<char>) -> Option<Seq<char>> {
    first_value_from(pairs, key, 0)
}

/// The callback parameters that the query pairs `pairs` carry, if both are
/// present.
pub open spec fn callback_of(pairs: Seq<(Seq<char>, Seq<char>)>) -> Option<(Seq<char>, Seq<char>)> {
    match (first_value(pairs, "code"@), first_value(pairs, "state"@)) {
        (Some(code), Some(state)) => Some((code, state)),
        _ => None,
    }
}

/// The value of the first pair named `key`.
pub fn find_value(pairs: &Vec<(String, String)>, key: &String) -> (r: Option<String>)
    ensures
        match r {
            Some(v) => first_value(pairs_view(pairs@), key@) == Some(v@),
            None => first_value(pairs_view(pairs@), key@) is None,
        },
{
    let ghost view = pairs_view(pairs@);
    let mut i: usize = 0;
    while i < pairs.len()
        invariant
            i <= pairs.len(),
            view == pairs_view(pairs@),
            first_value(view, key@) == first_value_from(view, key@, i as int),
        decreases pairs.len() - i,
    {
        if pairs[i].0 == *key {
            return Some(pairs[i].1.clone());
        }
        i = i + 1;
    }
    None
}

/// Picks `code` and `state` out of decoded query pairs. Where a name occurs
/// more than once, its first value counts.
pub fn callback_from_pairs(pairs: &Vec<(String, String)>) -> (r: Result<CallbackParams, AuthError>)
    ensures
        match callback_of(pairs_view(pairs@)) {
            Some((code, state)) => r matches Ok(p) && p.code@ == code && p.state@ == state,
            None => r matches Err(AuthError::MalformedCallback),
        },
{
    let code_key = String::from_str("code");
    let state_key = String::from_str("state");
    proof {
        reveal_strlit("code");
        reveal_strlit("state");
    }
    let code = find_value(pairs, &code_key);
    let state = find_value(pairs, &state_key);
    match (code, state) {
        (Some(code), Some(state)) => Ok(CallbackParams { code, state }),
        _ => Err(AuthError::MalformedCallback),
    }
}

/// Extracts the callback parameters from the target of the request that
/// reached the local listener (`/?state=...&code=...`).
pub fn parse_callback(target: &str) -> (r: Result<CallbackParams, AuthError>)
    ensures
        match url_query_pairs(CALLBACK_ORIGIN@ + target@) {
            Some(pairs) => match callback_of(pairs) {
                Some((code, state)) => r matches Ok(p) && p.code@ == code && p.state@ == state,
                None => r matches Err(AuthError::MalformedCallback),
            },
            None => r matches Err(AuthError::MalformedCallback),
        },
{
    let url = String::from_str(CALLBACK_ORIGIN).concat(target);
    match query_pairs(url.as_str()) {
        Some(pairs) => callback_from_pairs(&pairs),
        None => Err(AuthError::MalformedCallback),
    }
}

/// The page shown in the browser once the code has been captured.
pub fn confirmation_page(code: &str) -> (r: String)
    ensures
        r@ == CONFIRMATION_PREFIX@ + code@ + CONFIRMATION_SUFFIX@,
{
    String::from_str(CONFIRMATION_PREFIX).concat(code).concat(CONFIRMATION_SUFFIX)
}

/// The page the listener serves for what it captured: the confirmation when
/// both parameters were there, otherwise a request to try again, so that the
/// browser tab never hangs.
pub fn response_page(captured: &Result<CallbackParams, AuthError>) -> (r: String)
    ensures
        match captured {
            Ok(p) => r@ == CONFIRMATION_PREFIX@ + p.code@ + CONFIRMATION_SUFFIX@,
            Err(_) => r@ == MALFORMED_CALLBACK_PAGE@,
        },
{
    match captured {
        Ok(p) => confirmation_page(p.code.as_str()),
        Err(_) => String::from_str(MALFORMED_CALLBACK_PAGE),
    }
}

} // verus!
