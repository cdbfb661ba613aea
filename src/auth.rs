use vstd::prelude::*;
use crate::api::{HttpMethod, RemoteRequest};

verus! {

/// A failure described by its message alone.
pub struct SimpleError {
    pub message: String,
}

/// The settings that the client runs with.
pub struct AppConfigs {
    pub api_endpoint: String,
    pub gh_auth_scope: String,
}

pub open spec fn opt_view(o: Option<String>) -> Option<Seq<char>> {
    match o {
        Some(s) => Some(s@),
        None => None,
    }
}

/// The value of the last pair whose key is `key`.
pub open spec fn last_value(vars: Seq<(String, String)>, key: Seq<char>) -> Option<Seq<char>>
    decreases vars.len(),
{
    if vars.len() == 0 {
        None
    } else if vars.last().0@ == key {
        Some(vars.last().1@)
    } else {
        last_value(vars.drop_last(), key)
    }
}

pub open spec fn present(v: Option<Seq<char>>) -> bool {
    v matches Some(s) && s.len() > 0
}

/// The value of the last of `vars` whose key is `key`.
pub(crate) fn lookup_last(vars: &Vec<(String, String)>, key: &str) -> (r: Option<String>)
    ensures
        opt_view(r) == last_value(vars@, key@),
{
    let key = String::from_str(key);
    let mut found: Option<String> = None;
    let mut i: usize = 0;
    while i < vars.len()
        invariant
            0 <= i <= vars@.len(),
            opt_view(found) == last_value(vars@.take(i as int), key@),
        decreases vars@.len() - i,
    {
        proof {
            assert(vars@.take(i as int + 1).drop_last() =~= vars@.take(i as int));
            assert(vars@.take(i as int + 1).last() == vars@[i as int]);
        }
        if vars[i].0 == key {
            found = Some(vars[i].1.clone());
        }
        i = i + 1;
    }
    proof {
        assert(vars@.take(i as int) =~= vars@);
    }
    found
}

/// The value of the last of `vars` named `key`, when it is not empty.
pub(crate) fn required_var(vars: &Vec<(String, String)>, key: &str) -> (r: Option<String>)
    ensures
        present(last_value(vars@, key@)) ==> (r matches Some(v) && Some(v@) == last_value(
            vars@,
            key@,
        )),
        !present(last_value(vars@, key@)) ==> r is None,
{
    match lookup_last(vars, key) {
        Some(v) => if v.as_str().is_empty() {
            None
        } else {
            Some(v)
        },
        None => None,
    }
}

impl AppConfigs {
    /// The settings named `API_ENDPOINT` and `GITHUB_AUTH_SCOPE` among the
    /// variables; the last of a repeated name counts. `None` when either is
    /// missing or empty.
    pub fn from_vars(vars: &Vec<(String, String)>) -> (r: Option<AppConfigs>)
        ensures
            present(last_value(vars@, "API_ENDPOINT"@)) && present(
                last_value(vars@, "GITHUB_AUTH_SCOPE"@),
            ) ==> (r matches Some(c) && Some(c.api_endpoint@) == last_value(
                vars@,
                "API_ENDPOINT"@,
            ) && Some(c.gh_auth_scope@) == last_value(vars@, "GITHUB_AUTH_SCOPE"@)),
            !(present(last_value(vars@, "API_ENDPOINT"@)) && present(
                last_value(vars@, "GITHUB_AUTH_SCOPE"@),
            )) ==> r is None,
    {
        let api_endpoint = required_var(vars, "API_ENDPOINT");
        let gh_auth_scope = required_var(vars, "GITHUB_AUTH_SCOPE");
        match (api_endpoint, gh_auth_scope) {
            (Some(api_endpoint), Some(gh_auth_scope)) => Some(
                AppConfigs { api_endpoint, gh_auth_scope },
            ),
            _ => None,
        }
    }
}

/// The HTTP status with which the service accepts a credential.
pub const VERIFIED_STATUS: u16 = 204;

/// The session: a bearer credential that the service accepted, or none, in
/// which case every operation works on the local store.
pub struct AuthManager {
    token: Option<String>,
}

impl AuthManager {
    pub closed spec fn spec_token(&self) -> Option<String> {
        self.token
    }

    /// The session that a stored credential gives, given the status with
    /// which the service answered its verification (`None` when the service
    /// could not be reached): the credential is kept only when it was accepted.
    pub fn new(secret: Option<String>, verify_status: Option<u16>) -> (r: AuthManager)
        ensures
            r.spec_token() == if verify_status == Some(VERIFIED_STATUS) {
                secret
            } else {
                None
            },
    {
        match verify_status {
            Some(s) => if s == VERIFIED_STATUS {
                AuthManager { token: secret }
            } else {
                AuthManager { token: None }
            },
            None => AuthManager { token: None },
        }
    }

    pub fn get_access_token(&self) -> (r: Option<String>)
        ensures
            r == self.spec_token(),
    {
        match &self.token {
            Some(t) => Some(t.clone()),
            None => None,
        }
    }

    /// The request that asks the service whether `token` is still valid.
    pub fn verification_request(configs: &AppConfigs, token: &String) -> (r: RemoteRequest)
        ensures
            r.method == HttpMethod::Post,
            r.url@ == configs.api_endpoint@ + "/auth/verify"@,
            r.bearer matches Some(b) && b@ == token@,
            r.body is None,
            r.window is None,
    {
        RemoteRequest {
            method: HttpMethod::Post,
            url: configs.api_endpoint.clone().concat("/auth/verify"),
            bearer: Some(token.clone()),
            body: None,
            window: None,
        }
    }

    /// Judges the answer to a verification: the status, or the text of the
    /// failure when the service could not be reached. On an error the stored
    /// credential is to be discarded.
    pub fn verify_login(&self, answer: Result<u16, String>) -> (r: Result<(), SimpleError>)
        ensures
            r is Ok <==> answer == Ok::<u16, String>(VERIFIED_STATUS),
            answer matches Ok(s) && s != VERIFIED_STATUS ==> (r matches Err(e) && e.message@
                == "the token is not valid"@),
            answer matches Err(m) ==> (r matches Err(e) && e.message@
                == "failed to verify the token "@ + m@),
    {
        match answer {
            Ok(s) => if s == VERIFIED_STATUS {
                Ok(())
            } else {
                Err(SimpleError { message: String::from_str("the token is not valid") })
            },
            Err(m) => Err(
                SimpleError {
                    message: String::from_str("failed to verify the token ").concat(m.as_str()),
                },
            ),
        }
    }
}

} // verus!
