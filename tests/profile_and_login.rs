use metaversitas::error::{AuthError, UserServiceError};
use metaversitas::login::{
    complete_login, hash_password, login, refresh_token, verify_password, Account, NewUser, RegisteredUser,
};
use metaversitas::validation::RegisterUserSchema;
use metaversitas::cookie::Environment;
use metaversitas::photon::photon_success;
use metaversitas::profile::{
    ProfileCache, ProfileUserData, UserGender, UserRole, UserTypeProfile, UserUniversityRole,
    PROFILE_CACHE_TTL_SECS,
};
use metaversitas::session::SessionManager;
use metaversitas::token::decode_claims;

const NOW: u64 = 1_700_000_000;

fn profile(user_id: &str) -> ProfileUserData {
    ProfileUserData {
        user_id: user_id.to_string(),
        in_game_nickname: "alicia".to_string(),
        full_name: "Alice Liddell".to_string(),
        university_name: "X University".to_string(),
        faculty_name: "Computing".to_string(),
        faculty_id: 3,
        user_university_id: 42,
        user_univ_role: UserUniversityRole::Mahasiswa,
        gender: UserGender::Female,
        profile_image_url: "https://img/alice".to_string(),
        user_role: UserRole::User,
        user_type: UserTypeProfile::for_role(UserUniversityRole::Mahasiswa, "student-9".to_string()),
    }
}

#[test]
fn cache_serves_until_ttl() {
    let mut cache = ProfileCache::new();
    let uid = "u1".to_string();
    assert!(cache.lookup(&uid, NOW).is_none());
    let p = cache.complete_read(uid.clone(), Ok(Some(profile("u1"))), NOW).unwrap();
    assert_eq!(p.user_id, "u1");
    let hit = cache.lookup(&uid, NOW + PROFILE_CACHE_TTL_SECS - 1).unwrap();
    assert_eq!(hit.full_name, "Alice Liddell");
    assert!(matches!(hit.user_type, UserTypeProfile::Student { ref student_id } if student_id == "student-9"));
    assert!(cache.lookup(&uid, NOW + PROFILE_CACHE_TTL_SECS).is_none());
}

#[test]
fn invalidate_forces_single_reload() {
    let mut cache = ProfileCache::new();
    let uid = "u1".to_string();
    cache.populate(uid.clone(), profile("u1"), NOW);
    cache.invalidate(&uid);
    cache.invalidate(&uid);
    assert!(cache.lookup(&uid, NOW + 1).is_none());
    let mut fresh = profile("u1");
    fresh.full_name = "Alice L.".to_string();
    cache.complete_read(uid.clone(), Ok(Some(fresh)), NOW + 1).unwrap();
    assert_eq!(cache.lookup(&uid, NOW + 2).unwrap().full_name, "Alice L.");
}

#[test]
fn failed_reads_cache_nothing() {
    let mut cache = ProfileCache::new();
    let uid = "u1".to_string();
    assert!(matches!(
        cache.complete_read(uid.clone(), Ok(None), NOW),
        Err(UserServiceError::DatabaseConnectionError)
    ));
    assert!(matches!(
        cache.complete_read(uid.clone(), Err(UserServiceError::DatabaseConnectionError), NOW),
        Err(UserServiceError::DatabaseConnectionError)
    ));
    assert!(cache.lookup(&uid, NOW).is_none());
}

#[test]
fn lecturer_profile_refers_to_teacher() {
    let t = UserTypeProfile::for_role(UserUniversityRole::Dosen, "t-1".to_string());
    assert!(matches!(t, UserTypeProfile::Teacher { ref teacher_id } if teacher_id == "t-1"));
}

#[test]
fn password_hash_round_trip() {
    let h = hash_password("Alpha!2345678").unwrap();
    assert_ne!(h, "Alpha!2345678");
    assert!(h.starts_with("$argon2"));
    assert!(verify_password("Alpha!2345678", &h).is_ok());
    assert!(matches!(verify_password("Alpha!2345679", &h), Err(UserServiceError::PasswordNotMatch)));
    assert!(matches!(verify_password("x", "not a hash"), Err(UserServiceError::PasswordNotMatch)));
    assert!(matches!(verify_password("x", ""), Err(UserServiceError::PasswordNotMatch)));
}

#[test]
fn login_issues_session_cookie_pair() {
    let mut m = SessionManager::new("login-secret".to_string());
    let hash = hash_password("Alpha!2345678").unwrap();
    let account = Account { user_id: "user-1".to_string(), password_hash: hash.clone() };
    let s = login(&mut m, Some(account), "Alpha!2345678", NOW).unwrap();
    assert_eq!(s.credential.user_id, "user-1");
    let claims = decode_claims(&s.bearer.into_cookie_value(), "login-secret").unwrap();
    assert_eq!(claims.session_id, s.credential.session_id);
    let wrong = Account { user_id: "user-1".to_string(), password_hash: hash };
    assert!(matches!(login(&mut m, Some(wrong), "Alpha!0000000", NOW), Err(UserServiceError::PasswordNotMatch)));
    assert!(matches!(login(&mut m, None, "Alpha!2345678", NOW), Err(UserServiceError::PasswordNotMatch)));
    let r = AuthError::from(UserServiceError::PasswordNotMatch).into_response();
    assert_eq!(r.status, 401);
}

#[test]
fn complete_login_fuses_unknown_user_and_bad_password() {
    let mut m = SessionManager::new("s".to_string());
    assert!(matches!(complete_login(&mut m, None, true, NOW), Err(UserServiceError::PasswordNotMatch)));
    assert!(matches!(
        complete_login(&mut m, Some("u".to_string()), false, NOW),
        Err(UserServiceError::PasswordNotMatch)
    ));
    assert!(complete_login(&mut m, Some("u".to_string()), true, NOW).is_ok());
}

#[test]
fn refresh_endpoint_mints_cookie() {
    let mut m = SessionManager::new("refresh-secret".to_string());
    let s = m.begin("user-1".to_string(), NOW).unwrap();
    let c = refresh_token(&m, Some(s.credential.session_id.clone()), NOW + 700, Environment::Production).unwrap();
    let token = c.value.strip_prefix("Bearer ").unwrap();
    let claims = decode_claims(token, "refresh-secret").unwrap();
    assert_eq!(claims.user_id, "user-1");
    assert_eq!(claims.iat, NOW + 700);
    assert!(matches!(refresh_token(&m, None, NOW, Environment::Production), Err(AuthError::Unauthorized)));
    assert!(matches!(
        refresh_token(&m, Some("unknown".to_string()), NOW, Environment::Production),
        Err(AuthError::Unauthorized)
    ));
}

#[test]
fn photon_envelope_carries_profile_and_cookie() {
    let p = profile("user-1");
    let r = photon_success(&p, "sid", "tok");
    assert_eq!(r.result_code, 1);
    assert_eq!(r.user_id, "user-1");
    assert_eq!(r.nickname, "alicia");
    assert_eq!(r.data.faculty_id, 3);
    assert_eq!(r.data.user_university_id, 42);
    assert_eq!(r.data.auth_cookie, "session_token=sid;Authorization=Bearer tok");
}

#[test]
fn registration_row_and_answer() {
    let schema = RegisterUserSchema {
        nickname: "alicia".to_string(),
        email: "alice@x.edu".to_string(),
        password: "Alpha!2345678".to_string(),
    };
    assert!(schema.validate().is_empty());
    let hash = hash_password(&schema.password).unwrap();
    let row = NewUser::for_registration(schema, hash.clone());
    assert_eq!(row.email, "alice@x.edu");
    assert_eq!(row.nickname, "alicia");
    assert_eq!(row.password_hash, hash);
    assert_eq!(row.role, UserRole::User);
    assert!(!row.is_verified);
    let answer = RegisteredUser::from_row("7f1c".to_string(), row.email, row.is_verified).unwrap();
    assert_eq!(answer.user_id, "7f1c");
    assert!(!answer.is_verified);
    assert!(matches!(
        RegisteredUser::from_row(String::new(), "alice@x.edu".to_string(), false),
        Err(UserServiceError::UnableToParse)
    ));
}
