use metaversitas::cookie::{
    bearer_cookie, credentials_from_cookies, login_cookies, logout_cookies, session_cookie,
    strip_bearer_prefix, Environment, SameSitePolicy,
};
use metaversitas::error::AuthError;
use metaversitas::authorize::{AuthenticatedUser, AuthenticatedUserWithRole, MaybeAuthenticatedUser};
use metaversitas::login::logout;
use metaversitas::photon::{credentials_from_photon, photon_auth_cookie, BodyPhotonAuth, RequestPhotonAuth};
use metaversitas::profile::{UserRole, UserUniversityRole};
use metaversitas::session::{SessionManager, BEARER_LIFETIME_SECS};
use metaversitas::token::decode_claims;

const SECRET: &str = "transport-secret";
const NOW: u64 = 1_700_000_000;

#[test]
fn strip_prefix_requires_bearer() {
    assert_eq!(strip_bearer_prefix("Bearer abc"), Some("abc".to_string()));
    assert_eq!(strip_bearer_prefix("Bearer "), Some(String::new()));
    assert_eq!(strip_bearer_prefix("bearer abc"), None);
    assert_eq!(strip_bearer_prefix("abc"), None);
}

#[test]
fn missing_cookies_are_unauthorized() {
    assert!(matches!(
        credentials_from_cookies(None, Some("Bearer x".to_string())),
        Err(AuthError::Unauthorized)
    ));
    assert!(matches!(credentials_from_cookies(Some("s".to_string()), None), Err(AuthError::Unauthorized)));
    assert!(matches!(
        credentials_from_cookies(Some("s".to_string()), Some("x".to_string())),
        Err(AuthError::UnknownTokenFormat)
    ));
    let pair = credentials_from_cookies(Some("s".to_string()), Some("Bearer t".to_string())).unwrap();
    assert_eq!(pair.session_id, "s");
    assert_eq!(pair.bearer, "t");
}

#[test]
fn cookie_attributes() {
    let c = bearer_cookie("tok", Environment::Production);
    assert_eq!(c.name, "Authorization");
    assert_eq!(c.value, "Bearer tok");
    assert_eq!(c.path, "/");
    assert!(c.secure && c.http_only);
    assert_eq!(c.max_age_secs, 300);
    assert_eq!(c.same_site, Some(SameSitePolicy::Strict));
    assert_eq!(bearer_cookie("tok", Environment::Development).same_site, Some(SameSitePolicy::Lax));
    let s = session_cookie("sid");
    assert_eq!(s.name, "session_token");
    assert_eq!(s.value, "sid");
    assert!(s.secure && !s.http_only);
    assert_eq!(s.max_age_secs, 3600);
    assert_eq!(s.same_site, None);
    let (a, b) = login_cookies("sid", "tok", Environment::Production);
    assert_eq!(a.value, "Bearer tok");
    assert_eq!(b.value, "sid");
    assert_eq!((a.path.as_str(), b.path.as_str()), ("/", "/"));
}

#[test]
fn logout_clears_both_cookies_and_revokes() {
    let mut m = SessionManager::new(SECRET.to_string());
    let s = m.begin("user-1".to_string(), NOW).unwrap();
    let sid = s.credential.session_id.clone();
    let bearer = format!("Bearer {}", s.bearer.into_cookie_value());
    let (auth, session) = logout(&mut m, Some(sid.clone())).unwrap();
    assert_eq!(auth.name, "Authorization");
    assert_eq!(session.name, "session_token");
    assert_eq!(auth.value, "");
    assert_eq!(session.value, "");
    assert_eq!(auth.max_age_secs, -1);
    assert_eq!(session.max_age_secs, -1);
    let replay = AuthenticatedUser::from_cookies(&m, Some(sid), Some(bearer), NOW + 1);
    let err = replay.unwrap_err();
    assert!(matches!(err, AuthError::Unauthorized));
    let response = err.into_response();
    assert_eq!(response.status, 401);
    assert_eq!(response.message, "Unauthorized access");
    assert!(matches!(logout(&mut m, None), Err(AuthError::Unauthorized)));
    let (a, b) = logout_cookies();
    assert_eq!((a.max_age_secs, b.max_age_secs), (-1, -1));
}

#[test]
fn authorization_renews_expired_bearer() {
    let mut m = SessionManager::new(SECRET.to_string());
    let s = m.begin("user-1".to_string(), NOW).unwrap();
    let sid = s.credential.session_id.clone();
    let bearer = format!("Bearer {}", s.bearer.into_cookie_value());
    let fresh = AuthenticatedUser::from_cookies(&m, Some(sid.clone()), Some(bearer.clone()), NOW + 10).unwrap();
    assert_eq!(fresh.user.user_id, "user-1");
    assert!(fresh.renewed_bearer.is_none());
    let later = NOW + BEARER_LIFETIME_SECS + 5;
    let renewed = AuthenticatedUser::from_cookies(&m, Some(sid.clone()), Some(bearer), later).unwrap();
    assert_eq!(renewed.user.user_id, "user-1");
    assert_eq!(renewed.user.session_id, sid);
    let token = renewed.renewed_bearer.unwrap();
    let claims = decode_claims(&token, SECRET).unwrap();
    assert!(claims.exp > later);
    let cookie = bearer_cookie(&token, Environment::Production);
    assert!(cookie.value.starts_with("Bearer "));
}

#[test]
fn web_and_photon_agree() {
    let mut m = SessionManager::new(SECRET.to_string());
    let s = m.begin("user-1".to_string(), NOW).unwrap();
    let sid = s.credential.session_id.clone();
    let bearer = format!("Bearer {}", s.bearer.into_cookie_value());
    for (sid, auth) in [
        (sid.clone(), bearer.clone()),
        ("other".to_string(), bearer.clone()),
        (sid.clone(), "Bearer junk".to_string()),
        (sid.clone(), "no-prefix".to_string()),
    ] {
        let web = AuthenticatedUser::from_cookies(&m, Some(sid.clone()), Some(auth.clone()), NOW);
        let req = RequestPhotonAuth { auth_data: BodyPhotonAuth { cookie_auth: auth, cookie_session: sid } };
        let photon = AuthenticatedUser::from_photon(&m, req, NOW);
        assert_eq!(web.is_ok(), photon.is_ok());
    }
}

#[test]
fn photon_credentials_need_prefix() {
    let req = RequestPhotonAuth {
        auth_data: BodyPhotonAuth { cookie_auth: "Bearer t".to_string(), cookie_session: "s".to_string() },
    };
    let pair = credentials_from_photon(req).unwrap();
    assert_eq!((pair.session_id.as_str(), pair.bearer.as_str()), ("s", "t"));
    let bad = RequestPhotonAuth {
        auth_data: BodyPhotonAuth { cookie_auth: "t".to_string(), cookie_session: "s".to_string() },
    };
    assert!(matches!(credentials_from_photon(bad), Err(AuthError::UnknownTokenFormat)));
}

#[test]
fn photon_cookie_line() {
    assert_eq!(photon_auth_cookie("sid", "tok"), "session_token=sid;Authorization=Bearer tok");
}

#[test]
fn anonymous_without_cookies() {
    let m = SessionManager::new(SECRET.to_string());
    let (user, renewed) = MaybeAuthenticatedUser::from_cookies(&m, None, None, NOW).unwrap();
    assert!(user.0.is_none());
    assert!(renewed.is_none());
    assert!(MaybeAuthenticatedUser::from_cookies(&m, Some("s".to_string()), None, NOW).is_err());
}

#[test]
fn role_check_needs_functional_role() {
    let u = AuthenticatedUser { user_id: "u".to_string(), session_id: "s".to_string() };
    let r = AuthenticatedUserWithRole::from_parts(u, UserUniversityRole::Dosen, Some(UserRole::Staff)).unwrap();
    assert_eq!(r.user_role, UserRole::Staff);
    assert_eq!(r.university_role, UserUniversityRole::Dosen);
    let u = AuthenticatedUser { user_id: "u".to_string(), session_id: "s".to_string() };
    assert!(matches!(
        AuthenticatedUserWithRole::from_parts(u, UserUniversityRole::Mahasiswa, None),
        Err(AuthError::Unknown)
    ));
}
