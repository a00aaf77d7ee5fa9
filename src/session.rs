use vstd::prelude::*;
use crate::error::AuthError;
use crate::store::{Bindings, Credential, CredentialStore, is_live, live_user};
use crate::token::{
    AuthToken, SessionId, SessionTokenClaims, SESSION_ID_LENGTH, decode_claims, is_ascii_alphanumeric,
    jwt_claims_of,
};

verus! {

/// How long a bearer token is valid after issuance, in seconds.
pub const BEARER_LIFETIME_SECS: u64 = 600;

/// How long a session credential lives after login, in seconds.
pub const SESSION_LIFETIME_SECS: u64 = 3600;

/// The credential and the bearer token handed out by a login.
#[derive(Debug)]
pub struct IssuedSession {
    pub credential: Credential,
    pub bearer: AuthToken,
}

/// What the validation of a request's credential pair decided.
#[derive(Debug)]
pub enum ValidationOutcome {
    /// Bearer and credential agree and the bearer is still fresh.
    Validated { user_id: String, session_id: String },
    /// Bearer and credential agree but the bearer has expired.
    NeedsRefresh { user_id: String, session_id: String },
    /// The pair does not authenticate; the error says why.
    Rejected(AuthError),
}

/// The decision of a validation, over plain values.
pub enum Verdict {
    Validated(Seq<char>),
    NeedsRefresh(Seq<char>),
    RejectedToken,
    RejectedSession,
}

/// How a request presenting `session_id` and `token` at `now` is judged
/// against the credentials `b`: the token must decode under `secret`, name
/// the same session, whose live credential binds the token's user; the
/// token is then fresh while its expiry lies after `now`.
pub open spec fn verdict(
    b: Bindings,
    secret: Seq<char>,
    session_id: Seq<char>,
    token: Seq<char>,
    now: u64,
) -> Verdict {
    match jwt_claims_of(token, secret) {
        None => Verdict::RejectedToken,
        Some(c) => if c.1 != session_id {
            Verdict::RejectedSession
        } else if live_user(b, session_id, now) != Some(c.0) {
            Verdict::RejectedSession
        } else if c.3 <= now {
            Verdict::NeedsRefresh(c.0)
        } else {
            Verdict::Validated(c.0)
        },
    }
}

/// `r` is the outcome that the verdict `v` on `session_id` stands for.
pub open spec fn outcome_is(r: ValidationOutcome, v: Verdict, session_id: Seq<char>) -> bool {
    match v {
        Verdict::Validated(u) => r matches ValidationOutcome::Validated { user_id, session_id: s }
            && user_id@ == u && s@ == session_id,
        Verdict::NeedsRefresh(u) => r matches ValidationOutcome::NeedsRefresh {
            user_id,
            session_id: s,
        } && user_id@ == u && s@ == session_id,
        Verdict::RejectedToken => r matches ValidationOutcome::Rejected(e) && e is UnknownTokenFormat,
        Verdict::RejectedSession => r matches ValidationOutcome::Rejected(e) && e is Unauthorized,
    }
}

/// A login at `now` for `user_id` under the fresh id `session_id` turned the
/// credentials `before` into `after` and handed out `s`.
pub open spec fn issued(
    before: Bindings,
    after: Bindings,
    secret: Seq<char>,
    user_id: Seq<char>,
    session_id: Seq<char>,
    now: u64,
    s: IssuedSession,
) -> bool {
    &&& !is_live(before, session_id, now)
    &&& s.credential.session_id@ == session_id
    &&& s.credential.user_id@ == user_id
    &&& s.credential.expires_at == now + SESSION_LIFETIME_SECS
    &&& after == before.insert(session_id, (user_id, s.credential.expires_at))
    &&& jwt_claims_of(s.bearer@, secret) == Some(
        (user_id, session_id, now, (now + BEARER_LIFETIME_SECS) as u64),
    )
}

/// No credential of `b` is live at `now`.
pub open spec fn no_live_session(b: Bindings, now: u64) -> bool {
    forall|k: Seq<char>| !is_live(b, k, now)
}

/// A bearer can be minted at `now` for `user_id` on `session_id`: a live
/// credential binds that session to that user and outlives `now` by more
/// than a second, so that a bearer expiring after `now` and before the
/// credential exists.
pub open spec fn refreshable(b: Bindings, session_id: Seq<char>, user_id: Seq<char>, now: u64) -> bool {
    live_user(b, session_id, now) == Some(user_id) && b[session_id].1 > now + 1
}

/// The expiry of a bearer minted at `now` for a credential that expires at
/// `credential_expiry`: the default lifetime, cut short so that the bearer
/// always expires before its credential.
pub open spec fn refreshed_expiry(credential_expiry: u64, now: u64) -> u64 {
    if now + BEARER_LIFETIME_SECS < credential_expiry {
        (now + BEARER_LIFETIME_SECS) as u64
    } else {
        (credential_expiry - 1) as u64
    }
}

/// Issues, validates, refreshes and revokes sessions: it owns the
/// credential store and the secret that bearer tokens are signed with.
pub struct SessionManager {
    jwt_secret: String,
    store: CredentialStore,
}

impl SessionManager {
    pub closed spec fn wf(&self) -> bool {
        self.store.wf()
    }

    /// The signing secret.
    pub closed spec fn secret(&self) -> Seq<char> {
        self.jwt_secret@
    }

    /// The credentials held.
    pub closed spec fn bindings(&self) -> Bindings {
        self.store@
    }

    /// A manager with no sessions, signing with `jwt_secret`.
    pub fn new(jwt_secret: String) -> (r: SessionManager)
        ensures
            r.wf(),
            r.secret() == jwt_secret@,
            r.bindings() == Bindings::empty(),
    {
        SessionManager { jwt_secret, store: CredentialStore::new() }
    }

    fn mint(&self, user_id: &String, session_id: &String, now: u64, exp: u64) -> (r: Result<
        AuthToken,
        AuthError,
    >)
        ensures
            r matches Ok(t) && jwt_claims_of(t@, self.secret()) == Some(
                (user_id@, session_id@, now, exp),
            ),
    {
        let claims = SessionTokenClaims {
            user_id: user_id.clone(),
            iat: now,
            exp,
            session_id: session_id.clone(),
        };
        AuthToken::new(claims, self.jwt_secret.clone())
    }

    /// Starts a session for `user_id` under `session_id`: stores the
    /// credential for an hour and mints a ten-minute bearer bound to it.
    /// Succeeds exactly when no live credential holds `session_id`;
    /// otherwise fails with `UnableCreateSession`, leaving the store as it was.
    pub fn begin_with_session_id(&mut self, user_id: String, session_id: String, now: u64) -> (r:
        Result<IssuedSession, AuthError>)
        requires
            old(self).wf(),
            now <= u64::MAX - SESSION_LIFETIME_SECS,
        ensures
            final(self).wf(),
            final(self).secret() == old(self).secret(),
            r matches Ok(s) ==> issued(
                old(self).bindings(),
                final(self).bindings(),
                old(self).secret(),
                user_id@,
                session_id@,
                now,
                s,
            ),
            r matches Err(e) ==> e is UnableCreateSession && final(self).bindings() == old(self).bindings(),
            is_live(old(self).bindings(), session_id@, now) ==> r is Err,
            !is_live(old(self).bindings(), session_id@, now) ==> r is Ok,
    {
        let bearer_expiry: u64 = now + BEARER_LIFETIME_SECS;
        let expires_at: u64 = now + SESSION_LIFETIME_SECS;
        let bearer = match self.mint(&user_id, &session_id, now, bearer_expiry) {
            Ok(t) => t,
            Err(e) => return Err(e),
        };
        let stored = self.store.insert(session_id.clone(), user_id.clone(), expires_at, now);
        if !stored {
            return Err(AuthError::UnableCreateSession);
        }
        Ok(IssuedSession { credential: Credential { session_id, user_id, expires_at }, bearer })
    }

    /// Starts a session for `user_id` under a freshly generated id of 60
    /// ASCII letters and digits. Only a collision of that id with a live
    /// credential makes it fail, so it succeeds when none is live.
    pub fn begin(&mut self, user_id: String, now: u64) -> (r: Result<IssuedSession, AuthError>)
        requires
            old(self).wf(),
            now <= u64::MAX - SESSION_LIFETIME_SECS,
        ensures
            final(self).wf(),
            final(self).secret() == old(self).secret(),
            r matches Ok(s) ==> {
                &&& issued(
                    old(self).bindings(),
                    final(self).bindings(),
                    old(self).secret(),
                    user_id@,
                    s.credential.session_id@,
                    now,
                    s,
                )
                &&& s.credential.session_id@.len() == SESSION_ID_LENGTH
                &&& forall|i: int|
                    0 <= i < SESSION_ID_LENGTH ==> is_ascii_alphanumeric(
                        #[trigger] s.credential.session_id@[i],
                    )
            },
            r matches Err(e) ==> e is UnableCreateSession && final(self).bindings() == old(self).bindings(),
            no_live_session(old(self).bindings(), now) ==> r is Ok,
    {
        let session_id = SessionId::generate_new().into_cookie_value();
        self.begin_with_session_id(user_id, session_id, now)
    }

    /// Judges the credential pair of a request at `now`.
    pub fn validate(&self, session_id: &String, bearer: &str, now: u64) -> (r: ValidationOutcome)
        requires
            self.wf(),
        ensures
            outcome_is(r, verdict(self.bindings(), self.secret(), session_id@, bearer@, now), session_id@),
    {
        let claims = match decode_claims(bearer, self.jwt_secret.as_str()) {
            Ok(c) => c,
            Err(e) => return ValidationOutcome::Rejected(e),
        };
        if claims.session_id != *session_id {
            return ValidationOutcome::Rejected(AuthError::Unauthorized);
        }
        let user_id = match self.store.lookup(session_id, now) {
            Some(u) => u,
            None => return ValidationOutcome::Rejected(AuthError::Unauthorized),
        };
        if user_id != claims.user_id {
            return ValidationOutcome::Rejected(AuthError::Unauthorized);
        }
        if claims.exp <= now {
            ValidationOutcome::NeedsRefresh { user_id, session_id: claims.session_id }
        } else {
            ValidationOutcome::Validated { user_id, session_id: claims.session_id }
        }
    }

    /// Mints a new bearer at `now` for the live session `session_id` of
    /// `user_id`, without extending the credential; it expires after `now`
    /// and before the credential. Fails with `Unauthorized` exactly when the
    /// session is not refreshable: no live credential binds that session to
    /// that user, or the credential ends within a second.
    pub fn refresh(&self, session_id: &String, user_id: &String, now: u64) -> (r: Result<
        AuthToken,
        AuthError,
    >)
        requires
            self.wf(),
            now <= u64::MAX - BEARER_LIFETIME_SECS,
        ensures
            !refreshable(self.bindings(), session_id@, user_id@, now) ==> (r matches Err(e)
                && e is Unauthorized),
            refreshable(self.bindings(), session_id@, user_id@, now) ==> (r matches Ok(t)
                && jwt_claims_of(t@, self.secret()) == Some(
                (
                    user_id@,
                    session_id@,
                    now,
                    refreshed_expiry(self.bindings()[session_id@].1, now),
                ),
            )),
    {
        let stored = self.store.lookup_credential(session_id, now);
        let credential_expiry = match stored {
            Some((u, exp)) => {
                if u != *user_id {
                    return Err(AuthError::Unauthorized);
                }
                exp
            },
            None => return Err(AuthError::Unauthorized),
        };
        if credential_expiry <= now + 1 {
            return Err(AuthError::Unauthorized);
        }
        let exp = if now + BEARER_LIFETIME_SECS < credential_expiry {
            now + BEARER_LIFETIME_SECS
        } else {
            credential_expiry - 1
        };
        self.mint(user_id, session_id, now, exp)
    }

    /// The user that a live credential binds `session_id` to at `now`.
    pub fn user_of(&self, session_id: &String, now: u64) -> (r: Option<String>)
        requires
            self.wf(),
        ensures
            match live_user(self.bindings(), session_id@, now) {
                Some(u) => r matches Some(s) && s@ == u,
                None => r is None,
            },
    {
        self.store.lookup(session_id, now)
    }

    /// Revokes the session: its credential is deleted.
    pub fn end(&mut self, session_id: &String)
        requires
            old(self).wf(),
        ensures
            final(self).wf(),
            final(self).secret() == old(self).secret(),
            final(self).bindings() == old(self).bindings().remove(session_id@),
    {
        self.store.delete(session_id);
    }
}


/// A login's bearer decodes to the session id of the credential it created,
/// which the store binds to the same user; at the moment of issuance the
/// pair validates as that user.
pub proof fn login_round_trip(
    before: Bindings,
    after: Bindings,
    secret: Seq<char>,
    user_id: Seq<char>,
    session_id: Seq<char>,
    now: u64,
    s: IssuedSession,
)
    requires
        issued(before, after, secret, user_id, session_id, now, s),
        now <= u64::MAX - SESSION_LIFETIME_SECS,
    ensures
        jwt_claims_of(s.bearer@, secret) matches Some(c) && c.1 == s.credential.session_id@
            && after.contains_key(c.1) && after[c.1].0 == c.0 && c.0 == user_id,
        verdict(after, secret, session_id, s.bearer@, now) == Verdict::Validated(user_id),
{
}

/// Once a session has been ended, no bearer validates against it, not even
/// one minted just before.
pub proof fn end_revokes(b: Bindings, secret: Seq<char>, session_id: Seq<char>, token: Seq<char>, now: u64)
    ensures
        verdict(b.remove(session_id), secret, session_id, token, now) is RejectedToken
            || verdict(b.remove(session_id), secret, session_id, token, now) is RejectedSession,
{
}

/// A bearer refreshed at `now` expires after `now`, before its credential,
/// and validates against the credential it was minted for.
pub proof fn refresh_is_sound(
    b: Bindings,
    secret: Seq<char>,
    session_id: Seq<char>,
    user_id: Seq<char>,
    now: u64,
    token: Seq<char>,
)
    requires
        refreshable(b, session_id, user_id, now),
        now <= u64::MAX - BEARER_LIFETIME_SECS,
        jwt_claims_of(token, secret) == Some(
            (user_id, session_id, now, refreshed_expiry(b[session_id].1, now)),
        ),
    ensures
        jwt_claims_of(token, secret) matches Some(c) && c.3 > now && c.3 < b[session_id].1,
        verdict(b, secret, session_id, token, now) == Verdict::Validated(user_id),
{
}

/// Every bearer expires strictly before the credential it is bound to:
/// at login, and at each refresh of a live credential.
pub proof fn bearer_expires_before_credential(
    before: Bindings,
    after: Bindings,
    secret: Seq<char>,
    user_id: Seq<char>,
    session_id: Seq<char>,
    now: u64,
    s: IssuedSession,
    credential_expiry: u64,
    refreshed_at: u64,
)
    requires
        issued(before, after, secret, user_id, session_id, now, s),
        now <= u64::MAX - SESSION_LIFETIME_SECS,
        credential_expiry > refreshed_at,
        refreshed_at <= u64::MAX - BEARER_LIFETIME_SECS,
    ensures
        jwt_claims_of(s.bearer@, secret) matches Some(c) && c.3 < s.credential.expires_at,
        refreshed_expiry(credential_expiry, refreshed_at) < credential_expiry,
{
}

/// Two logins in a row hand out distinct session ids while the first
/// session's credential is still live.
pub proof fn sessions_are_distinct(
    b0: Bindings,
    b1: Bindings,
    b2: Bindings,
    secret: Seq<char>,
    user_id: Seq<char>,
    first_id: Seq<char>,
    second_id: Seq<char>,
    first_at: u64,
    second_at: u64,
    first: IssuedSession,
    second: IssuedSession,
)
    requires
        issued(b0, b1, secret, user_id, first_id, first_at, first),
        issued(b1, b2, secret, user_id, second_id, second_at, second),
        first_at <= u64::MAX - SESSION_LIFETIME_SECS,
        second_at < first.credential.expires_at,
    ensures
        first.credential.session_id@ != second.credential.session_id@,
{
}

} // verus!
