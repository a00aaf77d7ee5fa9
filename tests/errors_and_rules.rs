use metaversitas::config::Config;
use metaversitas::cookie::Environment;
use metaversitas::domain_errors::{
    ApiError, ClassroomControllerError, ClassroomServiceError, ExamControllerError, QuestionControllerError,
    SubjectControllerError,
};
use metaversitas::error::{
    AuthError, AuthErrorProvider, AuthFormatType, GameServiceError, PhotonAuthError, UserServiceError,
};
use metaversitas::login::{
    game_version_from_cache, game_version_from_row, game_version_key, CachedGameVersion, GameVersionStep,
};
use metaversitas::services::{ExamService, QuestionService, StudentService, SubjectService, TeacherService};
use metaversitas::validation::{
    validate_email, validate_nickname, validate_password, FormatParamsAuth, LoginUserSchema,
    ParamsAuthenticate, RegisterUserSchema, Violation,
};

fn all_auth_errors() -> Vec<AuthError> {
    vec![
        AuthError::OutdatedGameVersion,
        AuthError::InvalidGameVersion,
        AuthError::UserNotExist,
        AuthError::InvalidUsernameOrPassword,
        AuthError::Unauthorized,
        AuthError::UnknownTokenFormat,
        AuthError::UserRegistered,
        AuthError::UnableCreateSession,
        AuthError::DatabaseError,
        AuthError::RedisError,
        AuthError::Unknown,
        AuthError::InvalidApiKey,
        AuthError::JsonExtractorRejection("bad json".to_string()),
        AuthError::Other("bad value".to_string()),
    ]
}

#[test]
fn web_statuses_follow_table() {
    let expected = [403, 403, 401, 401, 401, 422, 409, 500, 500, 500, 500, 401, 422, 422];
    for (e, s) in all_auth_errors().into_iter().zip(expected) {
        assert_eq!(e.into_response().status, s);
    }
    let r = AuthError::Other("reason".to_string()).into_response();
    assert_eq!(r.message, "reason");
    assert_eq!(r.result_code, None);
}

#[test]
fn photon_codes_follow_table() {
    let expected = [(403, 3), (403, 3), (403, 2), (401, 2), (401, 2), (422, 3), (409, 2), (500, 3), (500, 3), (500, 3), (500, 3), (401, 3), (422, 3), (422, 3)];
    for (e, (s, c)) in all_auth_errors().into_iter().zip(expected) {
        let r = PhotonAuthError::from(e).into_response();
        assert_eq!((r.status, r.result_code), (s, Some(c)));
    }
    let r = PhotonAuthError::Incomplete.into_response();
    assert_eq!((r.status, r.result_code), (409, Some(0)));
    let r = PhotonAuthError::from(AuthError::UnknownTokenFormat).into_response();
    assert_eq!(r.message, "Unknown token format");
}

#[test]
fn invalid_game_version_on_both_transports() {
    let err = game_version_from_row(None).unwrap_err();
    assert_eq!(err, GameServiceError::InvalidGameVersion);
    let web = AuthErrorProvider::from_game_error(err, AuthFormatType::Default).into_response();
    assert_eq!(web.status, 403);
    assert_eq!(web.message, "Invalid game version.");
    let photon = AuthErrorProvider::from_game_error(err, AuthFormatType::Photon).into_response();
    assert_eq!(photon.status, 403);
    assert_eq!(photon.result_code, Some(3));
    assert_eq!(photon.message, "Invalid game version.");
}

#[test]
fn game_version_steps() {
    assert_eq!(game_version_from_cache(CachedGameVersion::Missing), GameVersionStep::QueryDatabase);
    assert_eq!(game_version_from_cache(CachedGameVersion::Marked), GameVersionStep::Accept);
    assert_eq!(
        game_version_from_cache(CachedGameVersion::Unexpected),
        GameVersionStep::Reject(GameServiceError::InvalidGameVersion)
    );
    assert_eq!(game_version_from_row(Some(false)), Err(GameServiceError::OutdatedGameVersion));
    assert_eq!(game_version_from_row(Some(true)), Ok(()));
    assert_eq!(game_version_key("0.0.0"), "game_version:0.0.0");
}

#[test]
fn user_store_errors_collapse() {
    let r = AuthError::from(UserServiceError::PasswordNotMatch).into_response();
    assert_eq!((r.status, r.message.as_str()), (401, "Invalid username or password"));
    let r = AuthError::from(UserServiceError::UnexpectedError("db down".to_string())).into_response();
    assert_eq!((r.status, r.message.as_str()), (500, "Internal Server Error"));
    let p = AuthErrorProvider::from_user_service_error(UserServiceError::UserAlreadyExists, AuthFormatType::Photon)
        .into_response();
    assert_eq!((p.status, p.result_code), (409, Some(2)));
    let d = AuthErrorProvider::from_user_service_error(UserServiceError::RedisConnectionError, AuthFormatType::Default)
        .into_response();
    assert_eq!(d.status, 500);
}

#[test]
fn endpoint_errors() {
    let r = SubjectControllerError::from(AuthError::Other("x".to_string())).into_response();
    assert_eq!((r.status, r.message.as_str()), (500, "Internal server error. With reason: x"));
    let r = ExamControllerError::from(AuthError::Unauthorized).into_response();
    assert_eq!((r.status, r.message.as_str()), (401, "Unauthorized access."));
    let r = QuestionControllerError::from(AuthError::DatabaseError).into_response();
    assert_eq!((r.status, r.message.as_str()), (500, "Internal server error."));
    let r = QuestionControllerError::JsonRejection("bad".to_string()).into_response();
    assert_eq!(r.status, 422);
}

#[test]
fn password_policy() {
    assert!(validate_password("Alpha!2345678").is_ok());
    assert!(validate_password("Alpha!234567").is_ok());
    assert_eq!(validate_password("Alpha!23456"), Err(Violation::Password));
    assert_eq!(validate_password("alpha!2345678"), Err(Violation::Password));
    assert_eq!(validate_password("ALPHA!2345678"), Err(Violation::Password));
    assert_eq!(validate_password("Alpha-2345678"), Err(Violation::Password));
    assert_eq!(validate_password("Alpha!bcdefgh"), Err(Violation::Password));
    let long = format!("Aa1!{}", "x".repeat(124));
    assert_eq!(long.chars().count(), 128);
    assert_eq!(validate_password(&long), Err(Violation::Password));
    assert!(validate_password(&long[..127]).is_ok());
}

#[test]
fn nickname_and_email_rules() {
    assert!(validate_nickname("alicia").is_ok());
    assert!(validate_nickname("abcd").is_ok());
    assert_eq!(validate_nickname("abc"), Err(Violation::Nickname));
    assert_eq!(validate_nickname("1alicia"), Err(Violation::Nickname));
    assert_eq!(validate_nickname("abcdefghijklmn"), Err(Violation::Nickname));
    assert!(validate_email("alice@x.edu").is_ok());
    assert_eq!(validate_email(""), Err(Violation::Email));
    assert_eq!(validate_email("alice"), Err(Violation::Email));
}

#[test]
fn register_collects_every_violation() {
    let ok = RegisterUserSchema {
        nickname: "alicia".to_string(),
        email: "alice@x.edu".to_string(),
        password: "Alpha!2345678".to_string(),
    };
    assert!(ok.validate().is_empty());
    let bad = RegisterUserSchema { nickname: "1a".to_string(), email: "nope".to_string(), password: "short".to_string() };
    assert_eq!(bad.validate(), vec![Violation::Nickname, Violation::Email, Violation::Password]);
    let login = LoginUserSchema { email: "alice@x.edu".to_string(), password: "weak".to_string() };
    assert_eq!(login.validate(), vec![Violation::Password]);
}

#[test]
fn login_params() {
    assert_eq!(FormatParamsAuth::parse("photon"), FormatParamsAuth::Photon);
    assert_eq!(FormatParamsAuth::parse("PhOtOn"), FormatParamsAuth::Photon);
    assert_eq!(FormatParamsAuth::parse("photons"), FormatParamsAuth::NotExist);
    assert_eq!(FormatParamsAuth::parse("web"), FormatParamsAuth::NotExist);
    let p = ParamsAuthenticate { format: Some(FormatParamsAuth::Photon), game_version: Some(String::new()), api_key: None };
    assert_eq!(p.validate(), vec![Violation::GameVersion]);
    assert_eq!(p.format_type(), AuthFormatType::Photon);
    let q = ParamsAuthenticate { format: Some(FormatParamsAuth::NotExist), game_version: Some("1.0".to_string()), api_key: Some("k".to_string()) };
    assert!(q.validate().is_empty());
    assert_eq!(q.format_type(), AuthFormatType::Default);
}

#[test]
fn services_new_is_default() {
    assert_eq!(ExamService::new(), ExamService::default());
    assert_eq!(QuestionService::new(), QuestionService::default());
    assert_eq!(StudentService::new(), StudentService::default());
    assert_eq!(SubjectService::new(), SubjectService::default());
    assert_eq!(TeacherService::new(), TeacherService::default());
}

#[test]
fn environment_names() {
    assert_eq!(Environment::from_name("DEV"), Environment::Development);
    assert_eq!(Environment::from_name("PROD"), Environment::Production);
    assert_eq!(Environment::from_name("other"), Environment::Production);
    let config = Config {
        database_url: String::new(),
        jwt_secret: String::new(),
        jwt_expires_in: String::new(),
        jwt_max_age: 60,
        redis_host_name: String::new(),
        redis_port: 6379,
        redis_is_tls: false,
        web_app_port: String::new(),
        web_app_port_ssl: String::new(),
        web_app_host: String::new(),
        web_app_mode_tls: false,
        web_app_environment: "DEV".to_string(),
        minio_bucket_name: String::new(),
        minio_access_key: String::new(),
        minio_secret_key: String::new(),
        minio_host_url: String::new(),
        minio_bucket_region: String::new(),
    };
    assert_eq!(config.environment(), Environment::Development);
}

#[test]
fn classroom_endpoint_errors() {
    let r = ClassroomControllerError::ClassroomFull.into_response();
    assert_eq!((r.status, r.message.as_str()), (403, "Classroom already full!"));
    let r = ClassroomControllerError::from(AuthError::Other("db".to_string())).into_response();
    assert_eq!((r.status, r.message.as_str()), (500, "Internal server error, reason: db"));
    let r = ClassroomControllerError::from(AuthError::Unauthorized).into_response();
    assert_eq!((r.status, r.message.as_str()), (401, "Unauthorized access!"));
    let r = ClassroomControllerError::ClassroomServiceError(ClassroomServiceError::UnauthorizedStudent).into_response();
    assert_eq!((r.status, r.message.as_str()), (500, "Internal server error."));
    let r = ApiError::ValidationError("bad".to_string()).into_response();
    assert_eq!((r.status, r.message.as_str()), (422, "bad"));
}
