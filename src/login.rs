use vstd::prelude::*;
use vstd::string::*;
use crate::cookie::{
    AUTH_COOKIE_MAX_AGE_SECS, BEARER_PREFIX, COOKIE_AUTH_NAME, COOKIE_SESSION_TOKEN_NAME, CookieSpec,
    Environment, bearer_cookie, logout_cookies, same_site_for,
};
use crate::error::{AuthError, GameServiceError, UserServiceError};
use crate::session::{
    BEARER_LIFETIME_SECS, IssuedSession, SESSION_LIFETIME_SECS, SessionManager, issued,
    no_live_session, refreshable, refreshed_expiry,
};
use crate::store::live_user;
use crate::profile::UserRole;
use crate::token::jwt_claims_of;
use crate::validation::RegisterUserSchema;

verus! {

/// Prefix of the key-value store key that marks a live game version.
pub const GAME_VERSION_KEY_PREFIX: &'static str = "game_version:";

/// Whether argon2, with its default parameters, accepts `password` against
/// the PHC-format `hash`.
pub uninterp spec fn argon2_verifies(password: Seq<char>, hash: Seq<char>) -> bool;

#[verifier::external_type_specification]
#[verifier::external_body]
pub struct ExPasswordHashError(argon2::password_hash::Error);

/// Relies on argon2's PasswordHash::new and PasswordHash::verify_password
/// with the default Argon2 parameters; a hash that does not parse accepts
/// nothing, and `PasswordHash::new` refuses the empty string.
#[verifier::external_body]
fn argon2_verify(password: &str, password_hash: &str) -> (r: bool)
    ensures
        r == argon2_verifies(password@, password_hash@),
        password_hash@.len() == 0 ==> !r,
{
    match argon2::PasswordHash::new(password_hash) {
        Ok(h) => h.verify_password(&[&argon2::Argon2::default()], password).is_ok(),
        Err(_) => false,
    }
}

/// Relies on argon2's PasswordHash::generate with the default parameters
/// and a random salt: the PHC string it returns verifies the password it
/// was made from.
#[verifier::external_body]
fn argon2_hash(password: &str) -> (r: Result<String, argon2::password_hash::Error>)
    ensures
        r matches Ok(h) ==> argon2_verifies(password@, h@),
{
    let salt = argon2::password_hash::SaltString::generate(rand::thread_rng());
    match argon2::PasswordHash::generate(argon2::Argon2::default(), password, &salt) {
        Ok(h) => Ok(h.to_string()),
        Err(e) => Err(e),
    }
}

/// Checks a password against its stored hash.
pub fn verify_password(password: &str, password_hash: &str) -> (r: Result<(), UserServiceError>)
    ensures
        r is Ok <==> argon2_verifies(password@, password_hash@),
        r matches Err(e) ==> e is PasswordNotMatch,
        password_hash@.len() == 0 ==> r is Err,
{
    if argon2_verify(password, password_hash) {
        Ok(())
    } else {
        Err(UserServiceError::PasswordNotMatch)
    }
}

/// Hashes a password with a fresh salt; the hash verifies that password.
pub fn hash_password(password: &str) -> (r: Result<String, UserServiceError>)
    ensures
        r matches Ok(h) ==> argon2_verifies(password@, h@),
        r matches Err(e) ==> e is UnableHashPassword,
{
    match argon2_hash(password) {
        Ok(h) => Ok(h),
        Err(_) => Err(UserServiceError::UnableHashPassword),
    }
}

/// The account that a login names: its user id and stored password hash.
#[derive(Debug)]
pub struct Account {
    pub user_id: String,
    pub password_hash: String,
}

/// What a registration returns.
#[derive(Debug)]
pub struct RegisteredUser {
    pub user_id: String,
    pub email: String,
    pub is_verified: bool,
}

/// The account row that a registration inserts.
#[derive(Debug)]
pub struct NewUser {
    pub email: String,
    pub password_hash: String,
    pub nickname: String,
    pub role: UserRole,
    pub is_verified: bool,
}

impl NewUser {
    /// The row of a registration: the given email, nickname and password
    /// hash, the plain `User` role, not yet verified.
    pub fn for_registration(schema: RegisterUserSchema, password_hash: String) -> (r: NewUser)
        ensures
            r.email == schema.email,
            r.nickname == schema.nickname,
            r.password_hash == password_hash,
            r.role == UserRole::User,
            !r.is_verified,
    {
        NewUser {
            email: schema.email,
            password_hash,
            nickname: schema.nickname,
            role: UserRole::User,
            is_verified: false,
        }
    }
}

impl RegisteredUser {
    /// The answer to a registration, from the row that was inserted; a row
    /// without a user id is `UnableToParse`.
    pub fn from_row(user_id: String, email: String, is_verified: bool) -> (r: Result<
        RegisteredUser,
        UserServiceError,
    >)
        ensures
            user_id@.len() == 0 ==> (r matches Err(e) && e is UnableToParse),
            user_id@.len() > 0 ==> (r matches Ok(u) && u.user_id == user_id && u.email == email
                && u.is_verified == is_verified),
    {
        if user_id.as_str().unicode_len() == 0 {
            Err(UserServiceError::UnableToParse)
        } else {
            Ok(RegisteredUser { user_id, email, is_verified })
        }
    }
}

/// Finishes a login once the account has been looked up and the password
/// checked: an unknown account and a wrong password both fail with
/// `PasswordNotMatch`, so that neither can be told apart; otherwise a
/// session is begun.
pub fn complete_login(
    manager: &mut SessionManager,
    user_id: Option<String>,
    password_verified: bool,
    now: u64,
) -> (r: Result<IssuedSession, UserServiceError>)
    requires
        old(manager).wf(),
        now <= u64::MAX - SESSION_LIFETIME_SECS,
    ensures
        final(manager).wf(),
        final(manager).secret() == old(manager).secret(),
        (user_id is None || !password_verified) ==> final(manager).bindings() == old(
            manager).bindings(),
        (r matches Err(e) && e is PasswordNotMatch) <==> (user_id is None || !password_verified),
        user_id is Some && password_verified && no_live_session(old(manager).bindings(), now)
            ==> r is Ok,
        r matches Ok(s) ==> user_id matches Some(u) && issued(
            old(manager).bindings(),
            final(manager).bindings(),
            old(manager).secret(),
            u@,
            s.credential.session_id@,
            now,
            s,
        ),
        r matches Err(e) ==> (e is PasswordNotMatch || e is UnableCreateSession) && final(manager).bindings() == old(manager).bindings(),
{
    let user_id = match user_id {
        Some(u) => u,
        None => return Err(UserServiceError::PasswordNotMatch),
    };
    if !password_verified {
        return Err(UserServiceError::PasswordNotMatch);
    }
    match manager.begin(user_id, now) {
        Ok(s) => Ok(s),
        Err(_) => Err(UserServiceError::UnableCreateSession),
    }
}

/// Logs in with a password against the account found for the email, if
/// any: the password is checked with argon2, then a session is begun.
pub fn login(manager: &mut SessionManager, account: Option<Account>, password: &str, now: u64) -> (r:
    Result<IssuedSession, UserServiceError>)
    requires
        old(manager).wf(),
        now <= u64::MAX - SESSION_LIFETIME_SECS,
    ensures
        final(manager).wf(),
        final(manager).secret() == old(manager).secret(),
        (r matches Err(e) && e is PasswordNotMatch) <==> match account {
            None => true,
            Some(a) => !argon2_verifies(password@, a.password_hash@),
        },
        (account matches Some(a) && argon2_verifies(password@, a.password_hash@))
            && no_live_session(old(manager).bindings(), now) ==> r is Ok,
        r matches Err(e) ==> e is PasswordNotMatch || e is UnableCreateSession,
        r matches Ok(s) ==> account matches Some(a) && issued(
            old(manager).bindings(),
            final(manager).bindings(),
            old(manager).secret(),
            a.user_id@,
            s.credential.session_id@,
            now,
            s,
        ),
        r is Err ==> final(manager).bindings() == old(manager).bindings(),
{
    match account {
        Some(a) => {
            let verified = verify_password(password, a.password_hash.as_str()).is_ok();
            complete_login(manager, Some(a.user_id), verified, now)
        },
        None => complete_login(manager, None, false, now),
    }
}

/// Ends the session named by the `session_token` cookie and returns the
/// two cookies that clear the client; without that cookie, `Unauthorized`.
pub fn logout(manager: &mut SessionManager, session_cookie: Option<String>) -> (r: Result<
    (CookieSpec, CookieSpec),
    AuthError,
>)
    requires
        old(manager).wf(),
    ensures
        final(manager).wf(),
        final(manager).secret() == old(manager).secret(),
        match session_cookie {
            Some(s) => r is Ok && final(manager).bindings() == old(manager).bindings().remove(s@),
            None => r matches Err(e) && e is Unauthorized && final(manager).bindings() == old(manager).bindings(),
        },
        r matches Ok(c) ==> {
            &&& c.0.name@ == COOKIE_AUTH_NAME@ && c.1.name@ == COOKIE_SESSION_TOKEN_NAME@
            &&& c.0.value@.len() == 0 && c.1.value@.len() == 0
            &&& c.0.max_age_secs == -1 && c.1.max_age_secs == -1
            &&& c.0.path@ == "/"@ && c.1.path@ == "/"@
            &&& c.0.secure && c.1.secure
        },
{
    match session_cookie {
        Some(s) => {
            manager.end(&s);
            Ok(logout_cookies())
        },
        None => Err(AuthError::Unauthorized),
    }
}

/// Mints a new `Authorization` cookie for the live session named by the
/// `session_token` cookie; a missing cookie, or a session that is not live
/// or ends within a second, is `Unauthorized`.
pub fn refresh_token(
    manager: &SessionManager,
    session_cookie: Option<String>,
    now: u64,
    env: Environment,
) -> (r: Result<CookieSpec, AuthError>)
    requires
        manager.wf(),
        now <= u64::MAX - BEARER_LIFETIME_SECS,
    ensures
        match session_cookie {
            None => r matches Err(e) && e is Unauthorized,
            Some(s) => match live_user(manager.bindings(), s@, now) {
                Some(u) => if refreshable(manager.bindings(), s@, u, now) {
                    r matches Ok(c) && c.name@ == COOKIE_AUTH_NAME@ && c.path@ == "/"@ && c.secure
                        && c.http_only && c.max_age_secs == AUTH_COOKIE_MAX_AGE_SECS && c.same_site
                        == Some(same_site_for(env)) && exists|t: Seq<char>|
                        c.value@ == BEARER_PREFIX@ + t && jwt_claims_of(t, manager.secret()) == Some(
                            (u, s@, now, refreshed_expiry(manager.bindings()[s@].1, now)),
                        )
                } else {
                    r matches Err(e) && e is Unauthorized
                },
                None => r matches Err(e) && e is Unauthorized,
            },
        },
{
    let session_id = match session_cookie {
        Some(s) => s,
        None => return Err(AuthError::Unauthorized),
    };
    let user_id = match manager.user_of(&session_id, now) {
        Some(u) => u,
        None => return Err(AuthError::Unauthorized),
    };
    match manager.refresh(&session_id, &user_id, now) {
        Ok(t) => {
            let token = t.into_cookie_value();
            let c = bearer_cookie(token.as_str(), env);
            assert(c.value@ == BEARER_PREFIX@ + token@);
            Ok(c)
        },
        Err(e) => Err(e),
    }
}

/// `game_version:<version>`, the key that marks a live game version.
pub fn game_version_key(version: &str) -> (r: String)
    ensures
        r@ == GAME_VERSION_KEY_PREFIX@ + version@,
{
    let mut k = String::from_str(GAME_VERSION_KEY_PREFIX);
    k.append(version);
    k
}

/// What the key-value store holds under a game version's key.
#[derive(Debug, Clone, Copy, PartialEq, Eq, Structural)]
pub enum CachedGameVersion {
    /// Nothing: the game table must be asked.
    Missing,
    /// A marker: the version was found live recently.
    Marked,
    /// A value of another kind.
    Unexpected,
}

/// The next step of a game-version check.
#[derive(Debug, Clone, Copy, PartialEq, Eq, Structural)]
pub enum GameVersionStep {
    Accept,
    QueryDatabase,
    Reject(GameServiceError),
}

/// The step that the cached marker of a version calls for.
pub fn game_version_from_cache(cached: CachedGameVersion) -> (r: GameVersionStep)
    ensures
        cached is Missing ==> r == GameVersionStep::QueryDatabase,
        cached is Marked ==> r == GameVersionStep::Accept,
        cached is Unexpected ==> r == GameVersionStep::Reject(GameServiceError::InvalidGameVersion),
{
    match cached {
        CachedGameVersion::Missing => GameVersionStep::QueryDatabase,
        CachedGameVersion::Marked => GameVersionStep::Accept,
        CachedGameVersion::Unexpected => GameVersionStep::Reject(GameServiceError::InvalidGameVersion),
    }
}

/// The verdict on a version from the game table: `is_live` of its row, if
/// it has one. An unknown version is invalid, one no longer live outdated.
pub fn game_version_from_row(is_live: Option<bool>) -> (r: Result<(), GameServiceError>)
    ensures
        is_live is None ==> r == Err::<(), GameServiceError>(GameServiceError::InvalidGameVersion),
        is_live == Some(false) ==> r == Err::<(), GameServiceError>(
            GameServiceError::OutdatedGameVersion,
        ),
        is_live == Some(true) ==> r is Ok,
{
    match is_live {
        None => Err(GameServiceError::InvalidGameVersion),
        Some(false) => Err(GameServiceError::OutdatedGameVersion),
        Some(true) => Ok(()),
    }
}

} // verus!
