use vstd::prelude::*;
use crate::error::AuthError;

verus! {

/// The ASCII letters and digits, `[A-Za-z0-9]`.
pub open spec fn is_ascii_alphanumeric(c: char) -> bool {
    ('a' <= c && c <= 'z') || ('A' <= c && c <= 'Z') || ('0' <= c && c <= '9')
}

/// Number of characters of a freshly generated session id.
pub const SESSION_ID_LENGTH: usize = 60;

/// The opaque, high-entropy key of a server-side session credential.
#[derive(Debug)]
pub struct SessionId(String);

impl View for SessionId {
    type V = Seq<char>;

    closed spec fn view(&self) -> Seq<char> {
        self.0@
    }
}

/// Relies on rand's `Alphanumeric` distribution, which samples each
/// character uniformly from the ASCII letters and digits, drawn from the
/// thread-local generator.
#[verifier::external_body]
fn random_alphanumeric(len: usize) -> (r: String)
    ensures
        r@.len() == len,
        forall|i: int| 0 <= i < r@.len() ==> is_ascii_alphanumeric(#[trigger] r@[i]),
{
    rand::Rng::sample_iter(rand::thread_rng(), rand::distributions::Alphanumeric)
        .take(len)
        .map(char::from)
        .collect()
}

impl SessionId {
    /// A fresh session id of 60 random ASCII letters and digits.
    pub fn generate_new() -> (r: SessionId)
        ensures
            r@.len() == SESSION_ID_LENGTH,
            forall|i: int| 0 <= i < r@.len() ==> is_ascii_alphanumeric(#[trigger] r@[i]),
    {
        SessionId(random_alphanumeric(SESSION_ID_LENGTH))
    }

    /// The id as the value of the `session_token` cookie.
    pub fn into_cookie_value(self) -> (r: String)
        ensures
            r@ == self@,
    {
        self.0
    }
}

/// The claims that a bearer token carries: the user, the session it is
/// bound to, and when it was issued and expires (unix seconds).
#[derive(Debug)]
pub struct SessionTokenClaims {
    pub user_id: String,
    pub iat: u64,
    pub exp: u64,
    pub session_id: String,
}

/// The claims as plain values: user id, session id, issued-at, expiry.
pub type ClaimsView = (Seq<char>, Seq<char>, u64, u64);

impl View for SessionTokenClaims {
    type V = ClaimsView;

    open spec fn view(&self) -> ClaimsView {
        (self.user_id@, self.session_id@, self.iat, self.exp)
    }
}

#[verifier::external_type_specification]
#[verifier::external_body]
pub struct ExJwtError(jsonwebtoken::errors::Error);

/// The claims that jsonwebtoken's `decode` reads from `token` when the
/// signature checks out under `secret` (HS256, expiry not enforced), or
/// `None` when it rejects the token.
pub uninterp spec fn jwt_claims_of(token: Seq<char>, secret: Seq<char>) -> Option<ClaimsView>;

/// Relies on jsonwebtoken::encode with the default HS256 header and an
/// HMAC key from `EncodingKey::from_secret`: key and header agree, a JSON
/// map always serialises and HMAC signing cannot fail, so it succeeds; the
/// token it returns decodes, under the same secret, to the claims signed.
#[verifier::external_body]
fn jwt_encode(claims: &SessionTokenClaims, secret: &str) -> (r: Result<
    String,
    jsonwebtoken::errors::Error,
>)
    ensures
        r is Ok,
        r matches Ok(t) ==> jwt_claims_of(t@, secret@) == Some(claims@),
{
    let mut map = serde_json::Map::new();
    map.insert("sub".to_string(), serde_json::Value::from(claims.user_id.clone()));
    map.insert("iat".to_string(), serde_json::Value::from(claims.iat));
    map.insert("exp".to_string(), serde_json::Value::from(claims.exp));
    map.insert("sid".to_string(), serde_json::Value::from(claims.session_id.clone()));
    let key = jsonwebtoken::EncodingKey::from_secret(secret.as_bytes());
    jsonwebtoken::encode(&jsonwebtoken::Header::default(), &map, &key)
}

/// Relies on jsonwebtoken::decode with HS256 and the expiry check switched
/// off: it checks the signature and the claims' shape, not the time.
#[verifier::external_body]
fn jwt_decode(token: &str, secret: &str) -> (r: Option<SessionTokenClaims>)
    ensures
        match r {
            Some(c) => jwt_claims_of(token@, secret@) == Some(c@),
            None => jwt_claims_of(token@, secret@) is None,
        },
{
    let mut validation = jsonwebtoken::Validation::default();
    validation.validate_exp = false;
    let key = jsonwebtoken::DecodingKey::from_secret(secret.as_bytes());
    let data = jsonwebtoken::decode::<serde_json::Map<String, serde_json::Value>>(token, &key, &validation);
    let c = data.ok()?.claims;
    Some(SessionTokenClaims {
        user_id: c.get("sub")?.as_str()?.to_string(),
        iat: c.get("iat")?.as_u64()?,
        exp: c.get("exp")?.as_u64()?,
        session_id: c.get("sid")?.as_str()?.to_string(),
    })
}

/// A signed bearer token.
#[derive(Debug)]
pub struct AuthToken(String);

impl View for AuthToken {
    type V = Seq<char>;

    closed spec fn view(&self) -> Seq<char> {
        self.0@
    }
}

impl AuthToken {
    /// Signs `claims` with `jwt_secret`; the token decodes back to them.
    /// Signing with an HMAC secret does not fail.
    pub fn new(claims: SessionTokenClaims, jwt_secret: String) -> (r: Result<AuthToken, AuthError>)
        ensures
            r matches Ok(t) && jwt_claims_of(t@, jwt_secret@) == Some(claims@),
    {
        match jwt_encode(&claims, jwt_secret.as_str()) {
            Ok(t) => Ok(AuthToken(t)),
            Err(_) => Err(AuthError::UnableCreateSession),
        }
    }

    /// The token as it is written after `Bearer ` in the `Authorization` cookie.
    pub fn into_cookie_value(self) -> (r: String)
        ensures
            r@ == self@,
    {
        self.0
    }
}

/// Reads the claims of a bearer token signed with `jwt_secret`. Structural
/// validity only: a token whose expiry has passed still decodes.
pub fn decode_claims(token: &str, jwt_secret: &str) -> (r: Result<SessionTokenClaims, AuthError>)
    ensures
        match jwt_claims_of(token@, jwt_secret@) {
            Some(v) => r matches Ok(c) && c@ == v,
            None => r matches Err(e) && e is UnknownTokenFormat,
        },
{
    match jwt_decode(token, jwt_secret) {
        Some(c) => Ok(c),
        None => Err(AuthError::UnknownTokenFormat),
    }
}

} // verus!
