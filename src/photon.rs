use vstd::prelude::*;
use vstd::string::*;
use crate::cookie::{
    BEARER_PREFIX, CredentialPair, bearer_payload, credentials_are, strip_bearer_prefix,
};
use crate::error::AuthError;
use crate::profile::{ProfileUserData, UserGender, UserUniversityRole};

verus! {

/// `ResultCode` of a successful Photon authentication.
pub const PHOTON_RESULT_OK: u8 = 1;

/// The `auth_data` of a Photon request: the `Authorization` value (with
/// its `Bearer ` prefix) and the session id.
#[derive(Debug)]
pub struct BodyPhotonAuth {
    pub cookie_auth: String,
    pub cookie_session: String,
}

/// The body of a Photon authentication request.
#[derive(Debug)]
pub struct RequestPhotonAuth {
    pub auth_data: BodyPhotonAuth,
}

/// The `Data` object of a successful Photon response.
#[derive(Debug)]
pub struct AuthDataPhoton {
    pub user_id: String,
    pub in_game_nickname: String,
    pub full_name: String,
    pub university_name: String,
    pub faculty_name: String,
    pub faculty_id: u64,
    pub user_university_id: u64,
    pub user_univ_role: UserUniversityRole,
    pub gender: UserGender,
    pub auth_cookie: String,
}

/// A successful Photon response: `ResultCode`, `UserId`, `Nickname`, `Data`.
#[derive(Debug)]
pub struct PhotonAuthResponse {
    pub result_code: u8,
    pub user_id: String,
    pub nickname: String,
    pub data: AuthDataPhoton,
}

/// The credential pair that a Photon `auth_data` stands for.
pub open spec fn photon_credentials_of(cookie_session: Seq<char>, cookie_auth: Seq<char>) -> Result<
    (Seq<char>, Seq<char>),
    AuthError,
> {
    match bearer_payload(cookie_auth) {
        Some(t) => Ok((cookie_session, t)),
        None => Err(AuthError::UnknownTokenFormat),
    }
}

/// Reads the credential pair of a Photon request; an `Authorization`
/// value without the `Bearer ` prefix is `UnknownTokenFormat`.
pub fn credentials_from_photon(req: RequestPhotonAuth) -> (r: Result<CredentialPair, AuthError>)
    ensures
        credentials_are(
            r,
            photon_credentials_of(req.auth_data.cookie_session@, req.auth_data.cookie_auth@),
        ),
{
    let RequestPhotonAuth { auth_data } = req;
    let BodyPhotonAuth { cookie_auth, cookie_session } = auth_data;
    match strip_bearer_prefix(cookie_auth.as_str()) {
        Some(bearer) => Ok(CredentialPair { session_id: cookie_session, bearer }),
        None => Err(AuthError::UnknownTokenFormat),
    }
}

/// `session_token=<session id>;Authorization=Bearer <token>`, the cookie
/// line that a game client replays.
pub fn photon_auth_cookie(session_id: &str, token: &str) -> (r: String)
    ensures
        r@ == "session_token="@ + session_id@ + ";Authorization="@ + BEARER_PREFIX@ + token@,
{
    let mut v = String::from_str("session_token=");
    v.append(session_id);
    v.append(";Authorization=");
    v.append(BEARER_PREFIX);
    v.append(token);
    v
}

/// The Photon envelope of a successful authentication of the user with
/// `profile`, under session `session_id` and bearer `token`.
pub fn photon_success(profile: &ProfileUserData, session_id: &str, token: &str) -> (r:
    PhotonAuthResponse)
    ensures
        r.result_code == PHOTON_RESULT_OK,
        r.user_id == profile.user_id,
        r.nickname == profile.in_game_nickname,
        r.data.user_id == profile.user_id,
        r.data.in_game_nickname == profile.in_game_nickname,
        r.data.full_name == profile.full_name,
        r.data.university_name == profile.university_name,
        r.data.faculty_name == profile.faculty_name,
        r.data.faculty_id == profile.faculty_id,
        r.data.user_university_id == profile.user_university_id,
        r.data.user_univ_role == profile.user_univ_role,
        r.data.gender == profile.gender,
        r.data.auth_cookie@ == "session_token="@ + session_id@ + ";Authorization="@ + BEARER_PREFIX@
            + token@,
{
    PhotonAuthResponse {
        result_code: PHOTON_RESULT_OK,
        user_id: profile.user_id.clone(),
        nickname: profile.in_game_nickname.clone(),
        data: AuthDataPhoton {
            user_id: profile.user_id.clone(),
            in_game_nickname: profile.in_game_nickname.clone(),
            full_name: profile.full_name.clone(),
            university_name: profile.university_name.clone(),
            faculty_name: profile.faculty_name.clone(),
            faculty_id: profile.faculty_id,
            user_university_id: profile.user_university_id,
            user_univ_role: profile.user_univ_role,
            gender: profile.gender,
            auth_cookie: photon_auth_cookie(session_id, token),
        },
    }
}

} // verus!
