use metaversitas::error::AuthError;
use metaversitas::session::{SessionManager, ValidationOutcome, BEARER_LIFETIME_SECS, SESSION_LIFETIME_SECS};
use metaversitas::token::{decode_claims, AuthToken, SessionId, SessionTokenClaims};

const SECRET: &str = "unit-test-secret";
const NOW: u64 = 1_700_000_000;

fn manager() -> SessionManager {
    SessionManager::new(SECRET.to_string())
}

#[test]
fn session_id_is_sixty_alphanumerics() {
    let id = SessionId::generate_new().into_cookie_value();
    assert_eq!(id.chars().count(), 60);
    assert!(id.chars().all(|c| c.is_ascii_alphanumeric()));
}

#[test]
fn token_round_trips_through_codec() {
    let claims = SessionTokenClaims {
        user_id: "user-1".to_string(),
        iat: 100,
        exp: 700,
        session_id: "sess-1".to_string(),
    };
    let token = AuthToken::new(claims, SECRET.to_string()).unwrap().into_cookie_value();
    assert_ne!(token, "user-1");
    assert_eq!(token.split('.').count(), 3);
    let back = decode_claims(&token, SECRET).unwrap();
    assert_eq!(back.user_id, "user-1");
    assert_eq!(back.session_id, "sess-1");
    assert_eq!(back.iat, 100);
    assert_eq!(back.exp, 700);
}

#[test]
fn expired_token_still_decodes() {
    let claims = SessionTokenClaims { user_id: "u".to_string(), iat: 1, exp: 2, session_id: "s".to_string() };
    let token = AuthToken::new(claims, SECRET.to_string()).unwrap().into_cookie_value();
    assert_eq!(decode_claims(&token, SECRET).unwrap().exp, 2);
}

#[test]
fn token_under_other_secret_is_unknown_format() {
    let claims = SessionTokenClaims { user_id: "u".to_string(), iat: 1, exp: 2, session_id: "s".to_string() };
    let token = AuthToken::new(claims, SECRET.to_string()).unwrap().into_cookie_value();
    assert!(matches!(decode_claims(&token, "another-secret"), Err(AuthError::UnknownTokenFormat)));
    assert!(matches!(decode_claims("not-a-token", SECRET), Err(AuthError::UnknownTokenFormat)));
}

#[test]
fn login_bearer_decodes_to_stored_session() {
    let mut m = manager();
    let s = m.begin("user-1".to_string(), NOW).unwrap();
    let token = s.bearer.into_cookie_value();
    let claims = decode_claims(&token, SECRET).unwrap();
    assert_eq!(claims.session_id, s.credential.session_id);
    assert_eq!(claims.user_id, "user-1");
    assert_eq!(m.user_of(&s.credential.session_id, NOW), Some("user-1".to_string()));
    match m.validate(&s.credential.session_id, &token, NOW) {
        ValidationOutcome::Validated { user_id, session_id } => {
            assert_eq!(user_id, "user-1");
            assert_eq!(session_id, s.credential.session_id);
        }
        other => panic!("unexpected outcome {:?}", other),
    }
}

#[test]
fn bearer_expires_before_credential() {
    let mut m = manager();
    let s = m.begin("user-1".to_string(), NOW).unwrap();
    let claims = decode_claims(&s.bearer.into_cookie_value(), SECRET).unwrap();
    assert_eq!(claims.iat, NOW);
    assert_eq!(claims.exp, NOW + BEARER_LIFETIME_SECS);
    assert_eq!(s.credential.expires_at, NOW + SESSION_LIFETIME_SECS);
    assert!(claims.exp < s.credential.expires_at);
}

#[test]
fn end_revokes_fresh_bearer() {
    let mut m = manager();
    let s = m.begin("user-1".to_string(), NOW).unwrap();
    let token = s.bearer.into_cookie_value();
    m.end(&s.credential.session_id);
    assert!(matches!(
        m.validate(&s.credential.session_id, &token, NOW + 1),
        ValidationOutcome::Rejected(AuthError::Unauthorized)
    ));
    m.end(&s.credential.session_id);
    assert_eq!(m.user_of(&s.credential.session_id, NOW), None);
}

#[test]
fn expired_bearer_needs_refresh_and_refresh_validates() {
    let mut m = manager();
    let s = m.begin("user-1".to_string(), NOW).unwrap();
    let token = s.bearer.into_cookie_value();
    let later = NOW + BEARER_LIFETIME_SECS;
    assert!(matches!(
        m.validate(&s.credential.session_id, &token, later),
        ValidationOutcome::NeedsRefresh { .. }
    ));
    let fresh = m
        .refresh(&s.credential.session_id, &"user-1".to_string(), later)
        .unwrap()
        .into_cookie_value();
    let claims = decode_claims(&fresh, SECRET).unwrap();
    assert!(claims.exp > later);
    assert_eq!(claims.exp, later + BEARER_LIFETIME_SECS);
    assert!(matches!(
        m.validate(&s.credential.session_id, &fresh, later),
        ValidationOutcome::Validated { .. }
    ));
}

#[test]
fn refresh_near_session_end_is_cut_short() {
    let mut m = manager();
    let s = m.begin("user-1".to_string(), NOW).unwrap();
    let late = s.credential.expires_at - 100;
    let t = m.refresh(&s.credential.session_id, &"user-1".to_string(), late).unwrap();
    let claims = decode_claims(&t.into_cookie_value(), SECRET).unwrap();
    assert_eq!(claims.exp, s.credential.expires_at - 1);
}

#[test]
fn refresh_in_last_second_is_refused() {
    let mut m = manager();
    let s = m.begin("user-1".to_string(), NOW).unwrap();
    let last = s.credential.expires_at - 1;
    assert!(matches!(
        m.refresh(&s.credential.session_id, &"user-1".to_string(), last),
        Err(AuthError::Unauthorized)
    ));
    let before = s.credential.expires_at - 2;
    let t = m.refresh(&s.credential.session_id, &"user-1".to_string(), before).unwrap();
    let claims = decode_claims(&t.into_cookie_value(), SECRET).unwrap();
    assert!(claims.exp > before && claims.exp < s.credential.expires_at);
}

#[test]
fn refresh_of_other_user_is_unauthorized() {
    let mut m = manager();
    let s = m.begin("user-1".to_string(), NOW).unwrap();
    assert!(matches!(
        m.refresh(&s.credential.session_id, &"user-2".to_string(), NOW),
        Err(AuthError::Unauthorized)
    ));
}

#[test]
fn two_logins_have_distinct_session_ids() {
    let mut m = manager();
    let a = m.begin("user-1".to_string(), NOW).unwrap();
    let b = m.begin("user-1".to_string(), NOW).unwrap();
    assert_ne!(a.credential.session_id, b.credential.session_id);
}

#[test]
fn duplicate_session_id_is_refused() {
    let mut m = manager();
    m.begin_with_session_id("user-1".to_string(), "fixed".to_string(), NOW).unwrap();
    assert!(matches!(
        m.begin_with_session_id("user-2".to_string(), "fixed".to_string(), NOW),
        Err(AuthError::UnableCreateSession)
    ));
    assert_eq!(m.user_of(&"fixed".to_string(), NOW), Some("user-1".to_string()));
    let again = m.begin_with_session_id("user-2".to_string(), "fixed".to_string(), NOW + SESSION_LIFETIME_SECS);
    assert!(again.is_ok());
}

#[test]
fn mismatched_session_id_is_rejected() {
    let mut m = manager();
    let a = m.begin("user-1".to_string(), NOW).unwrap();
    let b = m.begin("user-2".to_string(), NOW).unwrap();
    let token_a = a.bearer.into_cookie_value();
    assert!(matches!(
        m.validate(&b.credential.session_id, &token_a, NOW),
        ValidationOutcome::Rejected(AuthError::Unauthorized)
    ));
    assert!(matches!(
        m.validate(&a.credential.session_id, "garbage", NOW),
        ValidationOutcome::Rejected(AuthError::UnknownTokenFormat)
    ));
}

#[test]
fn credential_expires_absolutely() {
    let mut m = manager();
    let s = m.begin("user-1".to_string(), NOW).unwrap();
    let token = s.bearer.into_cookie_value();
    assert!(matches!(
        m.validate(&s.credential.session_id, &token, NOW + SESSION_LIFETIME_SECS),
        ValidationOutcome::Rejected(AuthError::Unauthorized)
    ));
}
