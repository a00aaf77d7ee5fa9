use vstd::prelude::*;
use vstd::string::*;
use crate::error::AuthError;
use crate::session::{BEARER_LIFETIME_SECS, SESSION_LIFETIME_SECS};

verus! {

/// Name of the cookie that carries the session id.
pub const COOKIE_SESSION_TOKEN_NAME: &'static str = "session_token";

/// Name of the cookie that carries the bearer token.
pub const COOKIE_AUTH_NAME: &'static str = "Authorization";

/// The literal that precedes the token in the `Authorization` cookie.
pub const BEARER_PREFIX: &'static str = "Bearer ";

/// Lifetime of the `Authorization` cookie in seconds, shorter than the bearer's own.
pub const AUTH_COOKIE_MAX_AGE_SECS: i64 = 300;

/// The deployment the server runs in; it decides the `SameSite` policy.
#[derive(Debug, Clone, Copy, PartialEq, Eq, Structural)]
pub enum Environment {
    Production,
    Development,
}

#[derive(Debug, Clone, Copy, PartialEq, Eq, Structural)]
pub enum SameSitePolicy {
    Strict,
    Lax,
    NoRestriction,
}

/// A cookie to set on the client, with its attributes.
#[derive(Debug)]
pub struct CookieSpec {
    pub name: String,
    pub value: String,
    pub path: String,
    pub secure: bool,
    pub http_only: bool,
    pub max_age_secs: i64,
    pub same_site: Option<SameSitePolicy>,
}

/// The session id and bearer token that a request presents.
#[derive(Debug)]
pub struct CredentialPair {
    pub session_id: String,
    pub bearer: String,
}

pub open spec fn same_site_for(env: Environment) -> SameSitePolicy {
    match env {
        Environment::Production => SameSitePolicy::Strict,
        Environment::Development => SameSitePolicy::Lax,
    }
}

/// The token inside an `Authorization` cookie value: what follows the
/// `Bearer ` prefix, or nothing when the prefix is missing.
pub open spec fn bearer_payload(v: Seq<char>) -> Option<Seq<char>> {
    if v.len() >= BEARER_PREFIX@.len() && v.subrange(0, BEARER_PREFIX@.len() as int) == BEARER_PREFIX@ {
        Some(v.subrange(BEARER_PREFIX@.len() as int, v.len() as int))
    } else {
        None
    }
}

/// The credential pair that the two cookie values stand for, or the error
/// that their absence or shape calls for.
pub open spec fn credentials_of(session: Option<Seq<char>>, auth: Option<Seq<char>>) -> Result<
    (Seq<char>, Seq<char>),
    AuthError,
> {
    match session {
        None => Err(AuthError::Unauthorized),
        Some(s) => match auth {
            None => Err(AuthError::Unauthorized),
            Some(a) => match bearer_payload(a) {
                None => Err(AuthError::UnknownTokenFormat),
                Some(t) => Ok((s, t)),
            },
        },
    }
}

/// `r` carries the credentials, or an error of the same kind, as `expected`.
pub open spec fn credentials_are(
    r: Result<CredentialPair, AuthError>,
    expected: Result<(Seq<char>, Seq<char>), AuthError>,
) -> bool {
    match expected {
        Ok((s, t)) => r matches Ok(p) && p.session_id@ == s && p.bearer@ == t,
        Err(AuthError::Unauthorized) => r matches Err(e) && e is Unauthorized,
        Err(_) => r matches Err(e) && e is UnknownTokenFormat,
    }
}

fn str_equal(a: &str, b: &str) -> (r: bool)
    ensures
        r == (a@ == b@),
{
    String::from_str(a) == String::from_str(b)
}

/// The token of an `Authorization` cookie value, without its `Bearer ` prefix.
pub fn strip_bearer_prefix(value: &str) -> (r: Option<String>)
    ensures
        match bearer_payload(value@) {
            Some(t) => r matches Some(s) && s@ == t,
            None => r is None,
        },
{
    let n = value.unicode_len();
    let k = BEARER_PREFIX.unicode_len();
    if n < k {
        return None;
    }
    if !str_equal(value.substring_char(0, k), BEARER_PREFIX) {
        return None;
    }
    Some(String::from_str(value.substring_char(k, n)))
}

/// Reads the credential pair from the `session_token` and `Authorization`
/// cookie values. A missing cookie is `Unauthorized`; an `Authorization`
/// value without the `Bearer ` prefix is `UnknownTokenFormat`.
pub fn credentials_from_cookies(session_cookie: Option<String>, auth_cookie: Option<String>) -> (r:
    Result<CredentialPair, AuthError>)
    ensures
        credentials_are(
            r,
            credentials_of(
                match session_cookie {
                    Some(s) => Some(s@),
                    None => None,
                },
                match auth_cookie {
                    Some(a) => Some(a@),
                    None => None,
                },
            ),
        ),
{
    let session_id = match session_cookie {
        Some(s) => s,
        None => return Err(AuthError::Unauthorized),
    };
    let auth = match auth_cookie {
        Some(a) => a,
        None => return Err(AuthError::Unauthorized),
    };
    match strip_bearer_prefix(auth.as_str()) {
        Some(bearer) => Ok(CredentialPair { session_id, bearer }),
        None => Err(AuthError::UnknownTokenFormat),
    }
}

/// `Bearer ` followed by the token: the value of the `Authorization` cookie.
pub fn bearer_cookie_value(token: &str) -> (r: String)
    ensures
        r@ == BEARER_PREFIX@ + token@,
{
    let mut v = String::from_str(BEARER_PREFIX);
    v.append(token);
    v
}

/// The `Authorization` cookie for a bearer token: path `/`, secure,
/// HTTP-only, five minutes, `SameSite` strict in production and lax in
/// development.
pub fn bearer_cookie(token: &str, env: Environment) -> (r: CookieSpec)
    ensures
        r.name@ == COOKIE_AUTH_NAME@,
        r.value@ == BEARER_PREFIX@ + token@,
        r.path@ == "/"@,
        r.secure,
        r.http_only,
        r.max_age_secs == AUTH_COOKIE_MAX_AGE_SECS,
        r.same_site == Some(same_site_for(env)),
{
    let same_site = match env {
        Environment::Production => SameSitePolicy::Strict,
        Environment::Development => SameSitePolicy::Lax,
    };
    CookieSpec {
        name: String::from_str(COOKIE_AUTH_NAME),
        value: bearer_cookie_value(token),
        path: String::from_str("/"),
        secure: true,
        http_only: true,
        max_age_secs: AUTH_COOKIE_MAX_AGE_SECS,
        same_site: Some(same_site),
    }
}

/// The `session_token` cookie for a session id: path `/`, secure, living
/// as long as the credential, default `SameSite`.
pub fn session_cookie(session_id: &str) -> (r: CookieSpec)
    ensures
        r.name@ == COOKIE_SESSION_TOKEN_NAME@,
        r.value@ == session_id@,
        r.path@ == "/"@,
        r.secure,
        !r.http_only,
        r.max_age_secs == SESSION_LIFETIME_SECS as i64,
        r.same_site is None,
{
    CookieSpec {
        name: String::from_str(COOKIE_SESSION_TOKEN_NAME),
        value: String::from_str(session_id),
        path: String::from_str("/"),
        secure: true,
        http_only: false,
        max_age_secs: SESSION_LIFETIME_SECS as i64,
        same_site: None,
    }
}

/// A cookie named `name` that the client drops at once: empty, `Max-Age=-1`.
fn expired_cookie(name: &str) -> (r: CookieSpec)
    ensures
        r.name@ == name@,
        r.value@.len() == 0,
        r.path@ == "/"@,
        r.secure,
        r.max_age_secs == -1,
{
    CookieSpec {
        name: String::from_str(name),
        value: String::new(),
        path: String::from_str("/"),
        secure: true,
        http_only: false,
        max_age_secs: -1,
        same_site: None,
    }
}

/// The two cookies that a logout sends: `Authorization` and
/// `session_token`, both empty with `Max-Age=-1`.
pub fn logout_cookies() -> (r: (CookieSpec, CookieSpec))
    ensures
        r.0.name@ == COOKIE_AUTH_NAME@,
        r.1.name@ == COOKIE_SESSION_TOKEN_NAME@,
        r.0.value@.len() == 0 && r.1.value@.len() == 0,
        r.0.max_age_secs == -1 && r.1.max_age_secs == -1,
        r.0.path@ == "/"@ && r.1.path@ == "/"@,
        r.0.secure && r.1.secure,
{
    (expired_cookie(COOKIE_AUTH_NAME), expired_cookie(COOKIE_SESSION_TOKEN_NAME))
}

/// The two cookies of a fresh login: the bearer, then the session id.
pub fn login_cookies(session_id: &str, token: &str, env: Environment) -> (r: (CookieSpec, CookieSpec))
    ensures
        r.0.name@ == COOKIE_AUTH_NAME@,
        r.0.value@ == BEARER_PREFIX@ + token@,
        r.0.path@ == "/"@ && r.1.path@ == "/"@,
        r.0.http_only && r.0.secure,
        r.0.max_age_secs == AUTH_COOKIE_MAX_AGE_SECS,
        r.0.same_site == Some(same_site_for(env)),
        r.1.name@ == COOKIE_SESSION_TOKEN_NAME@,
        r.1.value@ == session_id@,
        r.1.secure && !r.1.http_only,
        r.1.max_age_secs == SESSION_LIFETIME_SECS as i64,
        r.1.same_site is None,
{
    (bearer_cookie(token, env), session_cookie(session_id))
}

} // verus!
