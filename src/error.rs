use vstd::prelude::*;
use vstd::string::*;

verus! {

/// The transport that a login or an authorization request arrived on.
#[derive(Clone, Copy, Debug, PartialEq, Eq, Structural)]
pub enum AuthFormatType {
    Photon,
    Default,
}

/// A rendered error: the HTTP status, the Photon `ResultCode` (only on the
/// Photon transport) and the human-readable message of the JSON body.
#[derive(Debug)]
pub struct ErrorResponse {
    pub status: u16,
    pub result_code: Option<u8>,
    pub message: String,
}

/// Canonical errors of the session core, as seen by the web transport.
#[derive(Debug)]
pub enum AuthError {
    OutdatedGameVersion,
    InvalidGameVersion,
    UserNotExist,
    InvalidUsernameOrPassword,
    Unauthorized,
    UnknownTokenFormat,
    UserRegistered,
    UnableCreateSession,
    DatabaseError,
    RedisError,
    Unknown,
    InvalidApiKey,
    /// The request body could not be read as JSON; the reason is kept.
    JsonExtractorRejection(String),
    /// The request was well-formed but its values were rejected; the reason is kept.
    Other(String),
}

pub open spec fn auth_error_status(e: AuthError) -> u16 {
    match e {
        AuthError::InvalidUsernameOrPassword => 401,
        AuthError::Unauthorized => 401,
        AuthError::UnknownTokenFormat => 422,
        AuthError::UserRegistered => 409,
        AuthError::UserNotExist => 401,
        AuthError::UnableCreateSession => 500,
        AuthError::DatabaseError => 500,
        AuthError::RedisError => 500,
        AuthError::Unknown => 500,
        AuthError::InvalidGameVersion => 403,
        AuthError::OutdatedGameVersion => 403,
        AuthError::InvalidApiKey => 401,
        AuthError::JsonExtractorRejection(_) => 422,
        AuthError::Other(_) => 422,
    }
}

pub open spec fn auth_error_message(e: AuthError) -> Seq<char> {
    match e {
        AuthError::InvalidUsernameOrPassword => "Invalid username or password"@,
        AuthError::Unauthorized => "Unauthorized access"@,
        AuthError::UnknownTokenFormat => "Unknown format of token"@,
        AuthError::UserRegistered => "User already registered"@,
        AuthError::UserNotExist => "User does not exist."@,
        AuthError::UnableCreateSession => "Internal Server Error"@,
        AuthError::DatabaseError => "Internal Server Error"@,
        AuthError::RedisError => "Internal server error."@,
        AuthError::Unknown => "Internal Server Error"@,
        AuthError::InvalidGameVersion => "Invalid game version."@,
        AuthError::OutdatedGameVersion => "Outdated game version."@,
        AuthError::InvalidApiKey => "Invalid api key."@,
        AuthError::JsonExtractorRejection(m) => m@,
        AuthError::Other(m) => m@,
    }
}

/// The errors that stand for a failure on the server's side.
pub open spec fn is_server_fault(e: AuthError) -> bool {
    ||| e is UnableCreateSession
    ||| e is DatabaseError
    ||| e is RedisError
    ||| e is Unknown
}

impl AuthError {
    /// The web response for this error: its status and JSON message.
    pub fn into_response(self) -> (r: ErrorResponse)
        ensures
            r.status == auth_error_status(self),
            r.result_code is None,
            r.message@ == auth_error_message(self),
    {
        let (status, message): (u16, String) = match self {
            AuthError::InvalidUsernameOrPassword => (401, String::from_str("Invalid username or password")),
            AuthError::Unauthorized => (401, String::from_str("Unauthorized access")),
            AuthError::UnknownTokenFormat => (422, String::from_str("Unknown format of token")),
            AuthError::UserRegistered => (409, String::from_str("User already registered")),
            AuthError::UserNotExist => (401, String::from_str("User does not exist.")),
            AuthError::UnableCreateSession => (500, String::from_str("Internal Server Error")),
            AuthError::DatabaseError => (500, String::from_str("Internal Server Error")),
            AuthError::RedisError => (500, String::from_str("Internal server error.")),
            AuthError::Unknown => (500, String::from_str("Internal Server Error")),
            AuthError::InvalidGameVersion => (403, String::from_str("Invalid game version.")),
            AuthError::OutdatedGameVersion => (403, String::from_str("Outdated game version.")),
            AuthError::InvalidApiKey => (401, String::from_str("Invalid api key.")),
            AuthError::JsonExtractorRejection(m) => (422, m),
            AuthError::Other(m) => (422, m),
        };
        ErrorResponse { status, result_code: None, message }
    }
}


/// Canonical errors of the session core, as seen by the Photon transport.
#[derive(Debug)]
pub enum PhotonAuthError {
    OutdatedGameVersion,
    UnableCreateSession,
    Incomplete,
    InvalidParameters,
    InvalidUsernameOrPassword,
    InvalidGameVersion,
    InvalidApiKey,
    DatabaseError,
    RedisError,
    UserNotExist,
    UserAlreadyExists,
    Unauthorized,
    Unknown,
    /// The query string could not be read; the reason is kept.
    QueryExtractorRejection(String),
    /// The request body could not be read as JSON; the reason is kept.
    JsonExtractorRejection(String),
    /// Any other rejected request; the reason is kept.
    Other(String),
}

pub open spec fn photon_error_status(e: PhotonAuthError) -> u16 {
    match e {
        PhotonAuthError::Incomplete => 409,
        PhotonAuthError::InvalidUsernameOrPassword => 401,
        PhotonAuthError::InvalidParameters => 422,
        PhotonAuthError::QueryExtractorRejection(_) => 422,
        PhotonAuthError::JsonExtractorRejection(_) => 422,
        PhotonAuthError::InvalidGameVersion => 403,
        PhotonAuthError::InvalidApiKey => 401,
        PhotonAuthError::Other(_) => 422,
        PhotonAuthError::DatabaseError => 500,
        PhotonAuthError::UnableCreateSession => 500,
        PhotonAuthError::UserNotExist => 403,
        PhotonAuthError::OutdatedGameVersion => 403,
        PhotonAuthError::RedisError => 500,
        PhotonAuthError::UserAlreadyExists => 409,
        PhotonAuthError::Unauthorized => 401,
        PhotonAuthError::Unknown => 500,
    }
}

pub open spec fn photon_result_code(e: PhotonAuthError) -> u8 {
    match e {
        PhotonAuthError::Incomplete => 0,
        PhotonAuthError::InvalidUsernameOrPassword => 2,
        PhotonAuthError::UserNotExist => 2,
        PhotonAuthError::UserAlreadyExists => 2,
        PhotonAuthError::Unauthorized => 2,
        _ => 3,
    }
}

pub open spec fn photon_error_message(e: PhotonAuthError) -> Seq<char> {
    match e {
        PhotonAuthError::Incomplete => "Authentication incomplete."@,
        PhotonAuthError::InvalidUsernameOrPassword => "Authentication Failed. Wrong credentials."@,
        PhotonAuthError::InvalidParameters => "Invalid parameter given, try to check again."@,
        PhotonAuthError::QueryExtractorRejection(m) => m@,
        PhotonAuthError::JsonExtractorRejection(m) => m@,
        PhotonAuthError::InvalidGameVersion => "Invalid game version."@,
        PhotonAuthError::InvalidApiKey => "Invalid api key."@,
        PhotonAuthError::Other(m) => m@,
        PhotonAuthError::DatabaseError => "Internal Server Error."@,
        PhotonAuthError::UnableCreateSession => "Internal Server Error."@,
        PhotonAuthError::UserNotExist => "User does not exist."@,
        PhotonAuthError::OutdatedGameVersion => "Outdated game version."@,
        PhotonAuthError::RedisError => "Internal Server Error."@,
        PhotonAuthError::UserAlreadyExists => "User already exists."@,
        PhotonAuthError::Unauthorized => "Unauthorized access."@,
        PhotonAuthError::Unknown => "Internal Server Error."@,
    }
}

impl PhotonAuthError {
    /// The Photon response for this error: status, `ResultCode` and message.
    pub fn into_response(self) -> (r: ErrorResponse)
        ensures
            r.status == photon_error_status(self),
            r.result_code == Some(photon_result_code(self)),
            r.message@ == photon_error_message(self),
    {
        let (status, code, message): (u16, u8, String) = match self {
            PhotonAuthError::Incomplete => (409, 0, String::from_str("Authentication incomplete.")),
            PhotonAuthError::InvalidUsernameOrPassword => (401, 2, String::from_str("Authentication Failed. Wrong credentials.")),
            PhotonAuthError::InvalidParameters => (422, 3, String::from_str("Invalid parameter given, try to check again.")),
            PhotonAuthError::QueryExtractorRejection(m) => (422, 3, m),
            PhotonAuthError::JsonExtractorRejection(m) => (422, 3, m),
            PhotonAuthError::InvalidGameVersion => (403, 3, String::from_str("Invalid game version.")),
            PhotonAuthError::InvalidApiKey => (401, 3, String::from_str("Invalid api key.")),
            PhotonAuthError::Other(m) => (422, 3, m),
            PhotonAuthError::DatabaseError => (500, 3, String::from_str("Internal Server Error.")),
            PhotonAuthError::UnableCreateSession => (500, 3, String::from_str("Internal Server Error.")),
            PhotonAuthError::UserNotExist => (403, 2, String::from_str("User does not exist.")),
            PhotonAuthError::OutdatedGameVersion => (403, 3, String::from_str("Outdated game version.")),
            PhotonAuthError::RedisError => (500, 3, String::from_str("Internal Server Error.")),
            PhotonAuthError::UserAlreadyExists => (409, 2, String::from_str("User already exists.")),
            PhotonAuthError::Unauthorized => (401, 2, String::from_str("Unauthorized access.")),
            PhotonAuthError::Unknown => (500, 3, String::from_str("Internal Server Error.")),
        };
        ErrorResponse { status, result_code: Some(code), message }
    }
}

/// `p` is the Photon counterpart of the web error `e`.
pub open spec fn photon_counterpart(e: AuthError, p: PhotonAuthError) -> bool {
    match e {
        AuthError::OutdatedGameVersion => p is OutdatedGameVersion,
        AuthError::InvalidGameVersion => p is InvalidGameVersion,
        AuthError::UserNotExist => p is UserNotExist,
        AuthError::InvalidUsernameOrPassword => p is InvalidUsernameOrPassword,
        AuthError::Unauthorized => p is Unauthorized,
        AuthError::UnknownTokenFormat => p matches PhotonAuthError::Other(m) && m@
            == "Unknown token format"@,
        AuthError::UserRegistered => p is UserAlreadyExists,
        AuthError::UnableCreateSession => p is UnableCreateSession,
        AuthError::DatabaseError => p is DatabaseError,
        AuthError::RedisError => p is RedisError,
        AuthError::Unknown => p is Unknown,
        AuthError::InvalidApiKey => p is InvalidApiKey,
        AuthError::JsonExtractorRejection(m) => p matches PhotonAuthError::JsonExtractorRejection(
            n,
        ) && n@ == m@,
        AuthError::Other(m) => p matches PhotonAuthError::Other(n) && n@ == m@,
    }
}

impl PhotonAuthError {
    /// The Photon counterpart of a web error.
    pub fn from(err: AuthError) -> (r: PhotonAuthError)
        ensures
            photon_counterpart(err, r),
    {
        match err {
            AuthError::OutdatedGameVersion => PhotonAuthError::OutdatedGameVersion,
            AuthError::InvalidGameVersion => PhotonAuthError::InvalidGameVersion,
            AuthError::UserNotExist => PhotonAuthError::UserNotExist,
            AuthError::InvalidUsernameOrPassword => PhotonAuthError::InvalidUsernameOrPassword,
            AuthError::Unauthorized => PhotonAuthError::Unauthorized,
            AuthError::UnknownTokenFormat => PhotonAuthError::Other(
                String::from_str("Unknown token format"),
            ),
            AuthError::UserRegistered => PhotonAuthError::UserAlreadyExists,
            AuthError::UnableCreateSession => PhotonAuthError::UnableCreateSession,
            AuthError::DatabaseError => PhotonAuthError::DatabaseError,
            AuthError::RedisError => PhotonAuthError::RedisError,
            AuthError::Unknown => PhotonAuthError::Unknown,
            AuthError::InvalidApiKey => PhotonAuthError::InvalidApiKey,
            AuthError::JsonExtractorRejection(m) => PhotonAuthError::JsonExtractorRejection(m),
            AuthError::Other(m) => PhotonAuthError::Other(m),
        }
    }
}


/// Errors of the user store and of the password and session services.
#[derive(Debug)]
pub enum UserServiceError {
    DatabaseConnectionError,
    UserDoesNotExist,
    PasswordNotMatch,
    UnableCreateSession,
    UserAlreadyExists,
    UnableHashPassword,
    RedisConnectionError,
    UnauthorizedAccess,
    UnableToParse,
    UnexpectedError(String),
}

/// Errors of the game-version check that guards Photon logins.
#[derive(Debug, Clone, Copy, PartialEq, Eq, Structural)]
pub enum GameServiceError {
    InvalidGameVersion,
    OutdatedGameVersion,
    DatabaseError,
    RedisError,
}

/// Errors of the API-key check.
#[derive(Debug, Clone, Copy, PartialEq, Eq, Structural)]
pub enum ApiKeyServiceError {
    FailedToVerify,
}

/// `a` is the web error that the user-store error `e` collapses into.
pub open spec fn web_of_user_service(e: UserServiceError, a: AuthError) -> bool {
    match e {
        UserServiceError::DatabaseConnectionError => a is DatabaseError,
        UserServiceError::UserDoesNotExist => a is UserNotExist,
        UserServiceError::PasswordNotMatch => a is InvalidUsernameOrPassword,
        UserServiceError::UnableCreateSession => a is UnableCreateSession,
        UserServiceError::UserAlreadyExists => a is UserRegistered,
        UserServiceError::UnableHashPassword => a is UnableCreateSession,
        UserServiceError::RedisConnectionError => a is RedisError,
        UserServiceError::UnauthorizedAccess => a is Unauthorized,
        UserServiceError::UnableToParse => a matches AuthError::Other(m) && m@ == "Unable to parse"@,
        UserServiceError::UnexpectedError(_) => a is Unknown,
    }
}

/// `p` is the Photon error that the user-store error `e` collapses into.
pub open spec fn photon_of_user_service(e: UserServiceError, p: PhotonAuthError) -> bool {
    match e {
        UserServiceError::DatabaseConnectionError => p is DatabaseError,
        UserServiceError::UserDoesNotExist => p is UserNotExist,
        UserServiceError::PasswordNotMatch => p is InvalidUsernameOrPassword,
        UserServiceError::UnableCreateSession => p is UnableCreateSession,
        UserServiceError::UserAlreadyExists => p is UserAlreadyExists,
        UserServiceError::UnableHashPassword => p is UnableCreateSession,
        UserServiceError::RedisConnectionError => p is RedisError,
        UserServiceError::UnauthorizedAccess => p is Unauthorized,
        UserServiceError::UnableToParse => p matches PhotonAuthError::Other(m) && m@
            == "Unable to parse"@,
        UserServiceError::UnexpectedError(_) => p is Unknown,
    }
}

pub open spec fn web_of_game(e: GameServiceError) -> AuthError {
    match e {
        GameServiceError::InvalidGameVersion => AuthError::InvalidGameVersion,
        GameServiceError::OutdatedGameVersion => AuthError::OutdatedGameVersion,
        GameServiceError::DatabaseError => AuthError::DatabaseError,
        GameServiceError::RedisError => AuthError::RedisError,
    }
}

pub open spec fn photon_of_game(e: GameServiceError) -> PhotonAuthError {
    match e {
        GameServiceError::InvalidGameVersion => PhotonAuthError::InvalidGameVersion,
        GameServiceError::OutdatedGameVersion => PhotonAuthError::OutdatedGameVersion,
        GameServiceError::DatabaseError => PhotonAuthError::DatabaseError,
        GameServiceError::RedisError => PhotonAuthError::RedisError,
    }
}

impl AuthError {
    /// The web error that a user-store error collapses into.
    pub fn from(err: UserServiceError) -> (r: AuthError)
        ensures
            web_of_user_service(err, r),
    {
        match err {
            UserServiceError::DatabaseConnectionError => AuthError::DatabaseError,
            UserServiceError::UserDoesNotExist => AuthError::UserNotExist,
            UserServiceError::PasswordNotMatch => AuthError::InvalidUsernameOrPassword,
            UserServiceError::UnableCreateSession => AuthError::UnableCreateSession,
            UserServiceError::UserAlreadyExists => AuthError::UserRegistered,
            UserServiceError::UnableHashPassword => AuthError::UnableCreateSession,
            UserServiceError::RedisConnectionError => AuthError::RedisError,
            UserServiceError::UnauthorizedAccess => AuthError::Unauthorized,
            UserServiceError::UnableToParse => AuthError::Other(String::from_str("Unable to parse")),
            UserServiceError::UnexpectedError(_) => AuthError::Unknown,
        }
    }

    /// The web error of a failed game-version check.
    pub fn from_game_error(err: GameServiceError) -> (r: AuthError)
        ensures
            r == web_of_game(err),
    {
        match err {
            GameServiceError::InvalidGameVersion => AuthError::InvalidGameVersion,
            GameServiceError::OutdatedGameVersion => AuthError::OutdatedGameVersion,
            GameServiceError::DatabaseError => AuthError::DatabaseError,
            GameServiceError::RedisError => AuthError::RedisError,
        }
    }
}

impl PhotonAuthError {
    /// The Photon error that a user-store error collapses into.
    pub fn from_user_service_error(err: UserServiceError) -> (r: PhotonAuthError)
        ensures
            photon_of_user_service(err, r),
    {
        match err {
            UserServiceError::DatabaseConnectionError => PhotonAuthError::DatabaseError,
            UserServiceError::UserDoesNotExist => PhotonAuthError::UserNotExist,
            UserServiceError::PasswordNotMatch => PhotonAuthError::InvalidUsernameOrPassword,
            UserServiceError::UnableCreateSession => PhotonAuthError::UnableCreateSession,
            UserServiceError::UserAlreadyExists => PhotonAuthError::UserAlreadyExists,
            UserServiceError::UnableHashPassword => PhotonAuthError::UnableCreateSession,
            UserServiceError::RedisConnectionError => PhotonAuthError::RedisError,
            UserServiceError::UnauthorizedAccess => PhotonAuthError::Unauthorized,
            UserServiceError::UnableToParse => PhotonAuthError::Other(String::from_str("Unable to parse")),
            UserServiceError::UnexpectedError(_) => PhotonAuthError::Unknown,
        }
    }

    /// The Photon error of a failed game-version check.
    pub fn from_game_error(err: GameServiceError) -> (r: PhotonAuthError)
        ensures
            r == photon_of_game(err),
    {
        match err {
            GameServiceError::InvalidGameVersion => PhotonAuthError::InvalidGameVersion,
            GameServiceError::OutdatedGameVersion => PhotonAuthError::OutdatedGameVersion,
            GameServiceError::DatabaseError => PhotonAuthError::DatabaseError,
            GameServiceError::RedisError => PhotonAuthError::RedisError,
        }
    }
}

/// An error rendered on the transport that the request came in on.
#[derive(Debug)]
pub enum AuthErrorProvider {
    Photon(PhotonAuthError),
    Default(AuthError),
}

impl AuthErrorProvider {
    /// A user-store error, on the given transport.
    pub fn from_user_service_error(err: UserServiceError, format: AuthFormatType) -> (r:
        AuthErrorProvider)
        ensures
            format is Photon ==> (r matches AuthErrorProvider::Photon(p) && photon_of_user_service(
                err,
                p,
            )),
            format is Default ==> (r matches AuthErrorProvider::Default(a) && web_of_user_service(
                err,
                a,
            )),
    {
        match format {
            AuthFormatType::Photon => AuthErrorProvider::Photon(
                PhotonAuthError::from_user_service_error(err),
            ),
            AuthFormatType::Default => AuthErrorProvider::Default(AuthError::from(err)),
        }
    }

    /// A failed game-version check, on the given transport.
    pub fn from_game_error(err: GameServiceError, format: AuthFormatType) -> (r: AuthErrorProvider)
        ensures
            format is Photon ==> r == AuthErrorProvider::Photon(photon_of_game(err)),
            format is Default ==> r == AuthErrorProvider::Default(web_of_game(err)),
    {
        match format {
            AuthFormatType::Photon => AuthErrorProvider::Photon(PhotonAuthError::from_game_error(err)),
            AuthFormatType::Default => AuthErrorProvider::Default(AuthError::from_game_error(err)),
        }
    }

    /// A web error, carried over to the given transport.
    pub fn from_auth_error(err: AuthError, format: AuthFormatType) -> (r: AuthErrorProvider)
        ensures
            format is Photon ==> (r matches AuthErrorProvider::Photon(p) && photon_counterpart(
                err,
                p,
            )),
            format is Default ==> r == AuthErrorProvider::Default(err),
    {
        match format {
            AuthFormatType::Photon => AuthErrorProvider::Photon(PhotonAuthError::from(err)),
            AuthFormatType::Default => AuthErrorProvider::Default(err),
        }
    }

    /// The response on the transport that this error is for.
    pub fn into_response(self) -> (r: ErrorResponse)
        ensures
            self matches AuthErrorProvider::Photon(p) ==> (r.status == photon_error_status(p)
                && r.result_code == Some(photon_result_code(p)) && r.message@
                == photon_error_message(p)),
            self matches AuthErrorProvider::Default(a) ==> (r.status == auth_error_status(a)
                && r.result_code is None && r.message@ == auth_error_message(a)),
    {
        match self {
            AuthErrorProvider::Photon(p) => p.into_response(),
            AuthErrorProvider::Default(a) => a.into_response(),
        }
    }
}

/// Every error of the taxonomy has a defined response on both transports:
/// the web status is one of 401, 403, 409, 422 and 500, the Photon
/// `ResultCode` one of 0, 2 and 3, and a 500 is answered on either
/// transport exactly for the server-side faults.
pub proof fn error_mapping_is_total(e: AuthError, p: PhotonAuthError)
    requires
        photon_counterpart(e, p),
    ensures
        auth_error_status(e) == 401 || auth_error_status(e) == 403 || auth_error_status(e) == 409
            || auth_error_status(e) == 422 || auth_error_status(e) == 500,
        photon_error_status(p) == 401 || photon_error_status(p) == 403 || photon_error_status(p)
            == 409 || photon_error_status(p) == 422 || photon_error_status(p) == 500,
        photon_result_code(p) == 0 || photon_result_code(p) == 2 || photon_result_code(p) == 3,
        auth_error_status(e) == 500 <==> is_server_fault(e),
        photon_error_status(p) == 500 <==> is_server_fault(e),
{
}

} // verus!
