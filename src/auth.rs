use vstd::prelude::*;

verus! {

/// The tokens the authorisation service grants.
#[derive(Clone, Debug)]
pub struct AuthInfo {
    pub access_token: String,
    pub user_id: u64,
    pub refresh_token: String,
    /// Lifetime of the access token, in seconds.
    pub expires_in: u64,
}

/// The credentials of the registered application.
#[derive(Clone, Debug)]
pub struct AppCred {
    pub client_id: String,
    pub client_secret: String,
}

impl AppCred {
    pub fn new(id: String, secret: String) -> (r: AppCred)
        ensures
            r.client_id == id,
            r.client_secret == secret,
    {
        AppCred { client_id: id, client_secret: secret }
    }

    pub fn get_client_id(&self) -> (r: &str)
        ensures
            r@ == self.client_id@,
    {
        self.client_id.as_str()
    }

    pub fn get_client_secret(&self) -> (r: &str)
        ensures
            r@ == self.client_secret@,
    {
        self.client_secret.as_str()
    }
}

/// A request for tokens: by authorisation code, or by refresh token.
#[derive(Clone, Debug)]
pub enum AuthPayload {
    AuthorizationCode { app_cred: AppCred, code: String, redirect_uri: String, state: Option<String> },
    RefreshToken { app_cred: AppCred, refresh_token: String, redirect_uri: String },
}

/// An error the authorisation service reports.
#[derive(Clone, Debug)]
pub struct RespError {
    pub error: String,
    pub error_description: String,
}

/// The authorisation service's answer.
#[derive(Clone, Debug)]
pub enum AuthResp {
    Success(AuthInfo),
    Error(RespError),
}

/// What a token refresh carries besides the credentials (nothing).
#[derive(Clone, Copy, Debug, PartialEq, Eq, Structural)]
pub struct RefreshInfo {}

/// Tokens together with when they were granted (seconds since the Unix epoch) and
/// the redirect address they were granted for.
#[derive(Clone, Debug)]
pub struct AuthHandle {
    pub info: AuthInfo,
    pub time: i64,
    pub redirect: String,
}

/// Seconds from `time` to `now`, never below zero.
pub open spec fn elapsed(time: i64, now: i64) -> int {
    if now > time { now - time } else { 0 }
}

impl AuthHandle {
    fn time_diff(&self, now: i64) -> (r: u64)
        ensures
            r == elapsed(self.time, now),
    {
        if now > self.time {
            (now as i128 - self.time as i128) as u64
        } else {
            0
        }
    }

    /// Whether the access token expired by `now` (seconds since the Unix epoch).
    pub fn outdated(&self, now: i64) -> (r: bool)
        ensures
            r == (elapsed(self.time, now) > self.info.expires_in),
    {
        self.time_diff(now) > self.info.expires_in
    }

    /// Whether a fifth of the token's lifetime has passed by `now`.
    pub fn requires_refresh(&self, now: i64) -> (r: bool)
        ensures
            r == (elapsed(self.time, now) * 5 > self.info.expires_in),
    {
        (self.time_diff(now) as u128) * 5 > self.info.expires_in as u128
    }

    pub fn redir(&self) -> (r: &str)
        ensures
            r@ == self.redirect@,
    {
        self.redirect.as_str()
    }
}

/// The stored settings: application credentials and, once signed in, the tokens.
#[derive(Clone, Debug)]
pub struct Settings {
    pub credentials: AppCred,
    pub auth: Option<AuthHandle>,
}

impl Settings {
    pub fn new(credentials: AppCred, auth: Option<AuthHandle>) -> (r: Settings)
        ensures
            r.credentials == credentials,
            r.auth == auth,
    {
        Settings { credentials, auth }
    }

    pub fn cred(&self) -> (r: &AppCred)
        ensures
            *r == self.credentials,
    {
        &self.credentials
    }

    pub fn auth(&self) -> (r: &Option<AuthHandle>)
        ensures
            *r == self.auth,
    {
        &self.auth
    }

    /// The settings signed out.
    pub fn logout(self) -> (r: Settings)
        ensures
            r.credentials == self.credentials,
            r.auth is None,
    {
        Settings { credentials: self.credentials, auth: None }
    }

    /// The settings with tokens `auth` granted at `now` for `redirect`.
    pub fn update_auth(self, auth: AuthInfo, redirect: String, now: i64) -> (r: Settings)
        ensures
            r.credentials == self.credentials,
            r.auth == Some(AuthHandle { info: auth, time: now, redirect }),
    {
        self.update_handle(AuthHandle { info: auth, time: now, redirect })
    }

    /// The settings with the tokens `handle`.
    pub fn update_handle(self, handle: AuthHandle) -> (r: Settings)
        ensures
            r.credentials == self.credentials,
            r.auth == Some(handle),
    {
        Settings { credentials: self.credentials, auth: Some(handle) }
    }
}

} // verus!
