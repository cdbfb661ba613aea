use vstd::prelude::*;
use crate::auth::AppConfigs;

verus! {

/// What the identity provider is asked for to start a device login.
pub struct LoginPayload {
    pub client_id: String,
    pub scope: String,
}

/// The identity provider's answer to a device login, as it arrives.
pub struct GHLoginPayload {
    pub device_code: String,
    pub expires_in: u64,
    pub interval: u32,
    pub user_code: String,
    pub verification_uri: String,
}

/// A device login in progress: the code to show, where to enter it, and how
/// long and how often to wait for it.
pub struct LoginResponse {
    pub device_code: String,
    pub expires_in: u64,
    pub interval: u32,
    pub user_code: String,
    pub verification_uri: String,
}

/// What the identity provider is polled with until the user has entered the code.
pub struct AccessTokenPayload {
    pub client_id: String,
    pub device_code: String,
    pub grant_type: String,
}

/// The identity provider's access token.
pub struct TokenResponse {
    pub access_token: String,
    pub token_type: String,
    pub scope: String,
}

/// What the service is given to exchange an access token for a session token.
pub struct FetchAccessTokenPayload {
    pub access_token: String,
}

/// The grant type of a device-code login.
pub open spec fn device_grant() -> Seq<char> {
    "urn:ietf:params:oauth:grant-type:device_code"@
}

/// Where the service tells the client id of its login application.
pub fn client_id_url(configs: &AppConfigs) -> (r: String)
    ensures
        r@ == configs.api_endpoint@ + "/auth/client_id"@,
{
    configs.api_endpoint.clone().concat("/auth/client_id")
}

/// Where the service exchanges an access token for a session token.
pub fn login_url(configs: &AppConfigs) -> (r: String)
    ensures
        r@ == configs.api_endpoint@ + "/auth/login"@,
{
    configs.api_endpoint.clone().concat("/auth/login")
}

impl LoginPayload {
    /// The request that starts a device login for the client id the service gave.
    pub fn new(client_id: String, configs: &AppConfigs) -> (r: LoginPayload)
        ensures
            r.client_id == client_id,
            r.scope == configs.gh_auth_scope,
    {
        LoginPayload { client_id, scope: configs.gh_auth_scope.clone() }
    }
}

impl LoginResponse {
    pub fn from_payload(p: GHLoginPayload) -> (r: LoginResponse)
        ensures
            r.device_code == p.device_code,
            r.expires_in == p.expires_in,
            r.interval == p.interval,
            r.user_code == p.user_code,
            r.verification_uri == p.verification_uri,
    {
        LoginResponse {
            device_code: p.device_code,
            expires_in: p.expires_in,
            interval: p.interval,
            user_code: p.user_code,
            verification_uri: p.verification_uri,
        }
    }
}

impl AccessTokenPayload {
    /// The poll request for a device login.
    pub fn new(client: &LoginPayload, login: &LoginResponse) -> (r: AccessTokenPayload)
        ensures
            r.client_id == client.client_id,
            r.device_code == login.device_code,
            r.grant_type@ == device_grant(),
    {
        AccessTokenPayload {
            client_id: client.client_id.clone(),
            device_code: login.device_code.clone(),
            grant_type: String::from_str("urn:ietf:params:oauth:grant-type:device_code"),
        }
    }
}

impl FetchAccessTokenPayload {
    pub fn new(token: &TokenResponse) -> (r: FetchAccessTokenPayload)
        ensures
            r.access_token == token.access_token,
    {
        FetchAccessTokenPayload { access_token: token.access_token.clone() }
    }
}

/// What to do after a poll.
pub enum PollOutcome {
    /// The user entered the code: the login is complete.
    Done(TokenResponse),
    /// Not yet: wait this many seconds and poll again.
    Wait(u32),
}

/// The schedule of a device login: polls are made until the deadline.
pub struct DevicePoll {
    pub deadline: i64,
    pub interval: u32,
}

impl DevicePoll {
    /// The schedule of a login that started at `now`; a deadline beyond the
    /// `i64` range is cut to its largest value.
    pub fn start(now: i64, login: &LoginResponse) -> (r: DevicePoll)
        ensures
            r.deadline == if now + login.expires_in <= i64::MAX {
                now + login.expires_in
            } else {
                i64::MAX as int
            },
            r.interval == login.interval,
    {
        let room: i128 = i64::MAX as i128 - now as i128;
        let deadline = if (login.expires_in as i128) <= room {
            (now as i128 + login.expires_in as i128) as i64
        } else {
            i64::MAX
        };
        DevicePoll { deadline, interval: login.interval }
    }

    /// Whether a poll may still be made at `now`.
    pub fn may_poll(&self, now: i64) -> (r: bool)
        ensures
            r == (now <= self.deadline),
    {
        now <= self.deadline
    }

    /// What a poll's answer means: a token ends the login, anything else
    /// means waiting one interval.
    pub fn on_reply(&self, reply: Option<TokenResponse>) -> (r: PollOutcome)
        ensures
            match reply {
                Some(t) => r == PollOutcome::Done(t),
                None => r == PollOutcome::Wait(self.interval),
            },
    {
        match reply {
            Some(t) => PollOutcome::Done(t),
            None => PollOutcome::Wait(self.interval),
        }
    }
}

} // verus!
