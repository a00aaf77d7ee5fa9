use vstd::prelude::*;
use crate::cookie::{CredentialPair, credentials_from_cookies, credentials_of};
use crate::error::AuthError;
use crate::photon::{RequestPhotonAuth, credentials_from_photon, photon_credentials_of};
use crate::profile::{UserRole, UserUniversityRole};
use crate::session::{
    BEARER_LIFETIME_SECS, SessionManager, ValidationOutcome, Verdict, refreshable, refreshed_expiry,
    verdict,
};
use crate::store::Bindings;
use crate::token::jwt_claims_of;

verus! {

/// A request's authenticated principal.
#[derive(Debug)]
pub struct AuthenticatedUser {
    pub user_id: String,
    pub session_id: String,
}

/// The principal of a request that may carry no credentials at all.
#[derive(Debug)]
pub struct MaybeAuthenticatedUser(pub Option<AuthenticatedUser>);

/// An authenticated principal with its functional and university roles.
#[derive(Debug)]
pub struct AuthenticatedUserWithRole {
    pub user_id: String,
    pub session_id: String,
    pub user_role: UserRole,
    pub university_role: UserUniversityRole,
}

/// An authenticated principal, with the bearer token minted for it when the
/// presented one had expired; the transport hands that token back.
#[derive(Debug)]
pub struct Authorized {
    pub user: AuthenticatedUser,
    pub renewed_bearer: Option<String>,
}

/// Authorization lets a request with the credential pair `cred` through at `now`.
pub open spec fn admits(
    b: Bindings,
    secret: Seq<char>,
    cred: Result<(Seq<char>, Seq<char>), AuthError>,
    now: u64,
) -> bool {
    match cred {
        Ok((s, t)) => match verdict(b, secret, s, t, now) {
            Verdict::Validated(_) => true,
            Verdict::NeedsRefresh(u) => refreshable(b, s, u, now),
            _ => false,
        },
        Err(_) => false,
    }
}

/// What authorization answers for the pair (`session_id`, `token`) at `now`.
pub open spec fn authorization_answer(
    m: SessionManager,
    session_id: Seq<char>,
    token: Seq<char>,
    now: u64,
    r: Result<Authorized, AuthError>,
) -> bool {
    match verdict(m.bindings(), m.secret(), session_id, token, now) {
        Verdict::Validated(u) => r matches Ok(a) && a.user.user_id@ == u && a.user.session_id@
            == session_id && a.renewed_bearer is None,
        Verdict::NeedsRefresh(u) => if refreshable(m.bindings(), session_id, u, now) {
            match r {
                Ok(a) => {
                    &&& a.user.user_id@ == u
                    &&& a.user.session_id@ == session_id
                    &&& a.renewed_bearer matches Some(t) && jwt_claims_of(t@, m.secret()) == Some(
                        (u, session_id, now, refreshed_expiry(m.bindings()[session_id].1, now)),
                    )
                },
                Err(_) => false,
            }
        } else {
            r matches Err(e) && e is Unauthorized
        },
        _ => r matches Err(e) && e is Unauthorized,
    }
}

/// What authorization answers for a web request with the given
/// `session_token` and `Authorization` cookie values at `now`.
pub open spec fn cookie_answer(
    m: SessionManager,
    session_cookie: Option<String>,
    auth_cookie: Option<String>,
    now: u64,
    r: Result<Authorized, AuthError>,
) -> bool {
    match credentials_of(
        match session_cookie {
            Some(s) => Some(s@),
            None => None,
        },
        match auth_cookie {
            Some(a) => Some(a@),
            None => None,
        },
    ) {
        Ok((s, t)) => authorization_answer(m, s, t, now, r),
        Err(AuthError::Unauthorized) => r matches Err(e) && e is Unauthorized,
        Err(_) => r matches Err(e) && e is UnknownTokenFormat,
    }
}

impl AuthenticatedUser {
    /// Lets the credential pair through when it validates, minting a new
    /// bearer when the presented one has expired and the session can still
    /// be refreshed; any rejection is `Unauthorized`.
    pub fn authenticate(manager: &SessionManager, pair: &CredentialPair, now: u64) -> (r: Result<
        Authorized,
        AuthError,
    >)
        requires
            manager.wf(),
            now <= u64::MAX - BEARER_LIFETIME_SECS,
        ensures
            authorization_answer(*manager, pair.session_id@, pair.bearer@, now, r),
    {
        match manager.validate(&pair.session_id, pair.bearer.as_str(), now) {
            ValidationOutcome::Validated { user_id, session_id } => Ok(
                Authorized { user: AuthenticatedUser { user_id, session_id }, renewed_bearer: None },
            ),
            ValidationOutcome::NeedsRefresh { user_id, session_id } => {
                match manager.refresh(&session_id, &user_id, now) {
                    Ok(t) => Ok(
                        Authorized {
                            user: AuthenticatedUser { user_id, session_id },
                            renewed_bearer: Some(t.into_cookie_value()),
                        },
                    ),
                    Err(e) => Err(e),
                }
            },
            ValidationOutcome::Rejected(_) => Err(AuthError::Unauthorized),
        }
    }

    /// The principal of a web request, from its `session_token` and
    /// `Authorization` cookie values.
    pub fn from_cookies(
        manager: &SessionManager,
        session_cookie: Option<String>,
        auth_cookie: Option<String>,
        now: u64,
    ) -> (r: Result<Authorized, AuthError>)
        requires
            manager.wf(),
            now <= u64::MAX - BEARER_LIFETIME_SECS,
        ensures
            cookie_answer(*manager, session_cookie, auth_cookie, now, r),
    {
        match credentials_from_cookies(session_cookie, auth_cookie) {
            Ok(pair) => AuthenticatedUser::authenticate(manager, &pair, now),
            Err(e) => Err(e),
        }
    }

    /// The principal of a Photon request, from its `auth_data`.
    pub fn from_photon(manager: &SessionManager, req: RequestPhotonAuth, now: u64) -> (r: Result<
        Authorized,
        AuthError,
    >)
        requires
            manager.wf(),
            now <= u64::MAX - BEARER_LIFETIME_SECS,
        ensures
            match photon_credentials_of(req.auth_data.cookie_session@, req.auth_data.cookie_auth@) {
                Ok((s, t)) => authorization_answer(*manager, s, t, now, r),
                Err(_) => r matches Err(e) && e is UnknownTokenFormat,
            },
    {
        match credentials_from_photon(req) {
            Ok(pair) => AuthenticatedUser::authenticate(manager, &pair, now),
            Err(e) => Err(e),
        }
    }
}

impl MaybeAuthenticatedUser {
    /// Anonymous when the request carries neither cookie; otherwise the
    /// principal that the cookies authenticate.
    pub fn from_cookies(
        manager: &SessionManager,
        session_cookie: Option<String>,
        auth_cookie: Option<String>,
        now: u64,
    ) -> (r: Result<(MaybeAuthenticatedUser, Option<String>), AuthError>)
        requires
            manager.wf(),
            now <= u64::MAX - BEARER_LIFETIME_SECS,
        ensures
            session_cookie is None && auth_cookie is None ==> (r matches Ok((m, t)) && m.0 is None
                && t is None),
            !(session_cookie is None && auth_cookie is None) ==> match r {
                Ok((m, t)) => m.0 matches Some(u) && cookie_answer(
                    *manager,
                    session_cookie,
                    auth_cookie,
                    now,
                    Ok((Authorized { user: u, renewed_bearer: t })),
                ),
                Err(e) => cookie_answer(*manager, session_cookie, auth_cookie, now, Err(e)),
            },
    {
        if session_cookie.is_none() && auth_cookie.is_none() {
            return Ok((MaybeAuthenticatedUser(None), None));
        }
        match AuthenticatedUser::from_cookies(manager, session_cookie, auth_cookie, now) {
            Ok(a) => Ok((MaybeAuthenticatedUser(Some(a.user)), a.renewed_bearer)),
            Err(e) => Err(e),
        }
    }
}

impl AuthenticatedUserWithRole {
    /// Adds the roles to an authenticated principal: the university role of
    /// its profile and its functional role, whose absence is `Unknown`.
    pub fn from_parts(
        user: AuthenticatedUser,
        university_role: UserUniversityRole,
        user_role: Option<UserRole>,
    ) -> (r: Result<AuthenticatedUserWithRole, AuthError>)
        ensures
            match user_role {
                Some(role) => r matches Ok(a) && a.user_id == user.user_id && a.session_id
                    == user.session_id && a.user_role == role && a.university_role
                    == university_role,
                None => r matches Err(e) && e is Unknown,
            },
    {
        match user_role {
            Some(role) => Ok(
                AuthenticatedUserWithRole {
                    user_id: user.user_id,
                    session_id: user.session_id,
                    user_role: role,
                    university_role,
                },
            ),
            None => Err(AuthError::Unknown),
        }
    }
}

/// For the same session id and `Authorization` value, the web transport
/// (cookies) lets a request through exactly when the Photon transport
/// (`auth_data`) does.
pub proof fn transports_agree(
    b: Bindings,
    secret: Seq<char>,
    session_id: Seq<char>,
    auth_value: Seq<char>,
    now: u64,
)
    ensures
        admits(b, secret, credentials_of(Some(session_id), Some(auth_value)), now)
            == admits(b, secret, photon_credentials_of(session_id, auth_value), now),
{
}


/// Authorization answers `Ok` for a credential pair exactly when the pair
/// is admitted, so the transport that delivered the pair cannot change
/// whether the request gets through.
pub proof fn answer_ok_iff_admitted(
    m: SessionManager,
    session_id: Seq<char>,
    token: Seq<char>,
    now: u64,
    r: Result<Authorized, AuthError>,
)
    requires
        authorization_answer(m, session_id, token, now, r),
    ensures
        r is Ok <==> admits(m.bindings(), m.secret(), Ok((session_id, token)), now),
{
}

} // verus!
