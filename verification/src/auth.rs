//! The guard in front of every route but login, and the login that hands out
//! the session cookie.

use vstd::prelude::*;

use crate::error::ApiError;
use crate::text::str_eq;
use crate::{SecretKey, ServerState};

verus! {

/// What `cookie::Cookie::split_parse` makes of a `Cookie` header, without
/// percent-decoding: one entry for each piece between semicolons that is not
/// blank, in the header's order; the name and the value of a piece that
/// parses, `None` for one that does not.
pub uninterp spec fn cookie_pairs(header: Seq<char>) -> Seq<Option<(Seq<char>, Seq<char>)>>;

/// The secret behind an optional key.
pub open spec fn secret_view(secret: Option<&SecretKey>) -> Option<Seq<char>> {
    match secret {
        Some(key) => Some(key.0@),
        None => None,
    }
}

/// The cookies of an optional header.
pub open spec fn header_pairs(header: Option<&str>) -> Option<Seq<Option<(Seq<char>, Seq<char>)>>> {
    match header {
        Some(text) => Some(cookie_pairs(text@)),
        None => None,
    }
}

/// The two spellings of the one path that needs no session.
pub open spec fn is_login_path(path: Seq<char>) -> bool {
    path == "/login"@ || path == "/login/"@
}

/// Some cookie is named `Key` and carries exactly `secret`.
pub open spec fn holds_key(pairs: Seq<Option<(Seq<char>, Seq<char>)>>, secret: Seq<char>) -> bool {
    exists|i: int| 0 <= i < pairs.len() && #[trigger] pairs[i] == Some(("Key"@, secret))
}

/// The guard's rule. Login passes. Any other path passes only where the server
/// has a secret, the request has a readable cookie header, and one of its
/// cookies is `Key` with that secret. Everything else is unauthorized.
pub open spec fn guard(
    path: Seq<char>,
    secret: Option<Seq<char>>,
    pairs: Option<Seq<Option<(Seq<char>, Seq<char>)>>>,
) -> Result<(), ApiError> {
    if is_login_path(path) {
        Ok(())
    } else if secret is Some && pairs is Some && holds_key(pairs->0, secret->0) {
        Ok(())
    } else {
        Err(ApiError::Unauthorized)
    }
}

/// The `Set-Cookie` line of a cookie whose only attribute, if it has one, is
/// that scripts may not read it.
pub open spec fn cookie_line(name: Seq<char>, value: Seq<char>, http_only: bool) -> Seq<char> {
    if http_only {
        name + "="@ + value + "; HttpOnly"@
    } else {
        name + "="@ + value
    }
}

/// What login answers: the wrong secret is forbidden; the right one gets the
/// `Set-Cookie` line of an HTTP-only cookie `Key` that carries the secret.
pub open spec fn login_answer(secret: Seq<char>, given: Seq<char>) -> Result<Seq<char>, ApiError> {
    if given == secret {
        Ok(cookie_line("Key"@, secret, true))
    } else {
        Err(ApiError::Forbidden)
    }
}

/// Splits a `Cookie` header with `cookie::Cookie::split_parse` and copies out
/// each result: name and value where the piece parsed, `None` where it did
/// not. The contract names the outcome and says nothing of its content.
#[verifier::external_body]
fn split_cookie_header(header: &str) -> (pairs: Vec<Option<(String, String)>>)
    ensures
        pairs.deep_view() == cookie_pairs(header@),
{
    cookie::Cookie::split_parse(header)
        .map(|parsed| parsed.ok().map(|c| (c.name().to_owned(), c.value().to_owned())))
        .collect()
}

/// Builds a cookie with `cookie::CookieBuilder`, sets whether it is HTTP-only,
/// and renders it with the crate's `Display`, which writes the name, `=`, the
/// value as given, and `; HttpOnly` where that attribute is set to true.
#[verifier::external_body]
fn render_cookie(name: &str, value: &str, http_only: bool) -> (line: String)
    ensures
        line@ == cookie_line(name@, value@, http_only),
{
    cookie::CookieBuilder::new(name.to_owned(), value.to_owned())
        .http_only(http_only)
        .build()
        .to_string()
}

/// Whether `path` is the login path.
pub fn login_path(path: &str) -> (open: bool)
    ensures
        open == is_login_path(path@),
{
    str_eq(path, "/login") || str_eq(path, "/login/")
}

/// Whether one of the parsed cookies is `Key` with exactly `secret`.
/// Entries that did not parse are passed over.
pub fn key_cookie_matches(pairs: &Vec<Option<(String, String)>>, secret: &str) -> (found: bool)
    ensures
        found == holds_key(pairs.deep_view(), secret@),
{
    let mut i: usize = 0;
    while i < pairs.len()
        invariant
            i <= pairs.len(),
            forall|k: int| 0 <= k < i ==> pairs.deep_view()[k] != Some(("Key"@, secret@)),
        decreases pairs.len() - i,
    {
        match &pairs[i] {
            Some((name, value)) => {
                if str_eq(name.as_str(), "Key") && str_eq(value.as_str(), secret) {
                    assert(pairs.deep_view()[i as int] == Some(("Key"@, secret@)));
                    return true;
                }
            },
            None => {},
        }
        i += 1;
    }
    false
}

/// Decides on a request whose cookie header has been split already.
pub fn check_session(
    path: &str,
    secret: Option<&SecretKey>,
    pairs: Option<&Vec<Option<(String, String)>>>,
) -> (verdict: Result<(), ApiError>)
    ensures
        verdict == guard(
            path@,
            secret_view(secret),
            match pairs {
                Some(list) => Some(list.deep_view()),
                None => None,
            },
        ),
{
    if login_path(path) {
        return Ok(());
    }
    let key = match secret {
        Some(key) => key,
        None => return Err(ApiError::Unauthorized),
    };
    let list = match pairs {
        Some(list) => list,
        None => return Err(ApiError::Unauthorized),
    };
    if key_cookie_matches(list, key.0.as_str()) {
        Ok(())
    } else {
        Err(ApiError::Unauthorized)
    }
}

/// The guard. `secret` is the configured secret, if the server has one;
/// `cookie_header` is the request's `Cookie` header, if it has one that reads
/// as text. `Ok` lets the request through to its handler.
pub fn auth_middleware(
    path: &str,
    secret: Option<&SecretKey>,
    cookie_header: Option<&str>,
) -> (verdict: Result<(), ApiError>)
    ensures
        verdict == guard(path@, secret_view(secret), header_pairs(cookie_header)),
{
    if login_path(path) {
        return Ok(());
    }
    if secret.is_none() {
        return Err(ApiError::Unauthorized);
    }
    match cookie_header {
        Some(text) => {
            let pairs = split_cookie_header(text);
            check_session(path, secret, Some(&pairs))
        },
        None => Err(ApiError::Unauthorized),
    }
}

/// Login with the secret that the client gave.
pub fn login(state: &ServerState, given_key: String) -> (answer: Result<String, ApiError>)
    ensures
        login_answer(state.key@, given_key@) == match answer {
            Ok(line) => Ok::<Seq<char>, ApiError>(line@),
            Err(error) => Err(error),
        },
{
    if !str_eq(state.key.as_str(), given_key.as_str()) {
        return Err(ApiError::Forbidden);
    }
    Ok(render_cookie("Key", given_key.as_str(), true))
}

} // verus!
