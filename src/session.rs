//! The session and its authentication states, and the one-shot re-login
//! retry around a request, as step functions that the caller drives.

use vstd::prelude::*;

use crate::error::Error;
use crate::json::Json;
use crate::response::{LoginResponse, UNAUTHORIZED};

verus! {

/// A user name and password, fixed when the session is made.
#[derive(Clone, Debug, PartialEq, Eq)]
pub struct Credentials {
    pub username: String,
    pub password: String,
}

/// The authentication state shared by every request of one client: no
/// credentials (anonymous), credentials without a token (unauthenticated), or
/// credentials with a token (authenticated). A client keeps it behind a
/// reader/writer lock: requests read the token, login and logout replace it.
#[derive(Clone, Debug)]
pub struct Session {
    credentials: Option<Credentials>,
    token: Option<String>,
}

impl Session {
    /// The credentials, if the session has any.
    pub closed spec fn spec_credentials(&self) -> Option<Credentials> {
        self.credentials
    }

    /// The token currently held, if any.
    pub closed spec fn spec_token(&self) -> Option<Seq<char>> {
        match self.token {
            Some(t) => Some(t@),
            None => None,
        }
    }

    /// A guest session: no credentials and never a token from a login.
    pub fn new_anon() -> (r: Session)
        ensures
            r.spec_credentials() is None,
            r.spec_token() is None,
    {
        Session { credentials: None, token: None }
    }

    /// A session for a user, not yet logged in.
    pub fn new_user(username: &str, password: &str) -> (r: Session)
        ensures
            r.spec_credentials() matches Some(c) && c.username@ == username@ && c.password@ == password@,
            r.spec_token() is None,
    {
        Session {
            credentials: Some(
                Credentials { username: String::from_str(username), password: String::from_str(password) },
            ),
            token: None,
        }
    }

    /// Whether a token is held.
    pub fn is_logged_in(&self) -> (r: bool)
        ensures
            r == self.spec_token() is Some,
    {
        self.token.is_some()
    }

    /// The token to send in the `Authorization` header, if one is held.
    pub fn token(&self) -> (r: Option<&str>)
        ensures
            match r {
                Some(t) => self.spec_token() == Some(t@),
                None => self.spec_token() is None,
            },
    {
        match &self.token {
            Some(t) => Some(t.as_str()),
            None => None,
        }
    }

    /// The body to post to the sign-in endpoint: `identifier` and `password`.
    /// A session without credentials cannot log in.
    pub fn login_body(&self) -> (r: Result<Json, Error>)
        ensures
            self.spec_credentials() is None ==> r matches Err(Error::NoCredentials),
            self.spec_credentials() matches Some(c) ==> (r matches Ok(Json::Object(e)) && e@.len() == 2
                && e@[0].0@ == "identifier"@ && (e@[0].1 matches Json::Str(u) && u@ == c.username@)
                && e@[1].0@ == "password"@ && (e@[1].1 matches Json::Str(p) && p@ == c.password@)),
    {
        match &self.credentials {
            Some(c) => {
                let mut e: Vec<(String, Json)> = Vec::new();
                e.push((String::from_str("identifier"), Json::Str(c.username.clone())));
                e.push((String::from_str("password"), Json::Str(c.password.clone())));
                Ok(Json::Object(e))
            },
            None => Err(Error::NoCredentials),
        }
    }

    /// Keeps the token of a successful login, replacing any earlier one.
    pub fn apply_login(&mut self, answer: LoginResponse)
        ensures
            final(self).spec_token() == Some(answer.auth_token@),
            final(self).spec_credentials() == old(self).spec_credentials(),
    {
        self.token = Some(answer.auth_token);
    }

    /// Drops the token, whatever the state; the credentials stay.
    pub fn logout(&mut self)
        ensures
            final(self).spec_token() is None,
            final(self).spec_credentials() == old(self).spec_credentials(),
    {
        self.token = None;
    }
}

/// Whether an error is the server's refusal of the session's token.
pub open spec fn unauthorized(e: Error) -> bool {
    e matches Error::SimpleNanoError(c, _) && c == UNAUTHORIZED
}

/// Whether a result is the server's refusal of the session's token.
pub fn is_unauthorized<T>(r: &Result<T, Error>) -> (b: bool)
    ensures
        b == (*r matches Err(e) && unauthorized(e)),
{
    match r {
        Err(Error::SimpleNanoError(c, _)) => *c == UNAUTHORIZED,
        _ => false,
    }
}

/// Where a retried request stands.
#[derive(Clone, Copy, Debug, PartialEq, Eq, Structural)]
pub enum Phase {
    /// The first attempt is out.
    First,
    /// The first attempt was refused; a login is out.
    Relogin,
    /// The login succeeded; the second and last attempt is out.
    Second,
    /// The outcome is known.
    Finished,
}

/// What the caller does next.
#[derive(Clone, Copy, Debug, PartialEq, Eq, Structural)]
pub enum Step {
    /// Send the same request again.
    Send,
    /// Log in.
    Login,
    /// Return the last outcome: the last response, or the failed login's error.
    Finish,
}

/// The next phase and step after an attempt's response.
pub open spec fn after_response_spec(p: Phase, refused: bool, logged_in: bool) -> (Phase, Step) {
    if p == Phase::First && refused && logged_in {
        (Phase::Relogin, Step::Login)
    } else {
        (Phase::Finished, Step::Finish)
    }
}

/// The next phase and step after a login.
pub open spec fn after_login_spec(ok: bool) -> (Phase, Step) {
    if ok {
        (Phase::Second, Step::Send)
    } else {
        (Phase::Finished, Step::Finish)
    }
}

/// One logical request with at most one transparent re-login: the request is
/// sent once; if the server refuses the token while the session believes it
/// is logged in, one login is made and the request is sent once more, and
/// that outcome is final. A guest session is never retried.
#[derive(Clone, Copy, Debug, PartialEq, Eq, Structural)]
pub struct RetryRequest {
    pub phase: Phase,
}

impl RetryRequest {
    /// A request whose first attempt is about to be sent.
    pub fn new() -> (r: RetryRequest)
        ensures
            r.phase == Phase::First,
    {
        RetryRequest { phase: Phase::First }
    }

    /// Decides after an attempt: `refused` tells whether the server refused
    /// the token, `logged_in` whether the session holds one.
    pub fn after_response(&mut self, refused: bool, logged_in: bool) -> (s: Step)
        requires
            old(self).phase == Phase::First || old(self).phase == Phase::Second,
        ensures
            (final(self).phase, s) == after_response_spec(old(self).phase, refused, logged_in),
    {
        if self.phase == Phase::First && refused && logged_in {
            self.phase = Phase::Relogin;
            Step::Login
        } else {
            self.phase = Phase::Finished;
            Step::Finish
        }
    }

    /// Decides after the login: on success send again, else finish with its error.
    pub fn after_login(&mut self, ok: bool) -> (s: Step)
        requires
            old(self).phase == Phase::Relogin,
        ensures
            (final(self).phase, s) == after_login_spec(ok),
    {
        if ok {
            self.phase = Phase::Second;
            Step::Send
        } else {
            self.phase = Phase::Finished;
            Step::Finish
        }
    }
}

/// A retried request sends at most twice and logs in at most once: after a
/// first response, either the outcome is final, or a login follows; after
/// the login, either its failure is final, or one more attempt follows,
/// whose response is final whatever it is. Without a token the first
/// response is always final.
pub proof fn lemma_retry_bounded(refused1: bool, logged_in1: bool, ok: bool, refused2: bool, logged_in2: bool)
    ensures
        after_response_spec(Phase::First, refused1, logged_in1).1 == Step::Finish
            || after_response_spec(Phase::First, refused1, logged_in1).1 == Step::Login,
        after_response_spec(Phase::First, refused1, logged_in1).1 == Step::Login <==> refused1 && logged_in1,
        !logged_in1 ==> after_response_spec(Phase::First, refused1, logged_in1) == (Phase::Finished, Step::Finish),
        after_login_spec(ok).1 == Step::Send ==> after_response_spec(after_login_spec(ok).0, refused2, logged_in2)
            == (Phase::Finished, Step::Finish),
{
}

} // verus!
