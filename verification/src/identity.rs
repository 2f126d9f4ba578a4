//! Identity Client: authenticates against the HTTP account service and
//! holds the resulting session token and profile.  The HTTP calls are
//! dispatched on a background worker; this machine decides what may be
//! sent (`begin_*`, producing a call payload) and folds each wire
//! outcome back into the session (`complete_*`).  A second request
//! while one is in flight is rejected as `Busy`; a register with
//! mismatched passwords is rejected before any call payload exists, so
//! no network round trip is ever spent on it.

use vstd::prelude::*;

verus! {

/// Why an authentication step failed.
#[derive(Clone, Copy, PartialEq, Eq, Structural, Debug)]
pub enum AuthError {
    InvalidCredentials,
    Expired,
    PasswordMismatch,
    AccountExists,
    Unreachable,
    Busy,
}

/// The authenticated player's profile.  Immutable once fetched;
/// replaced wholesale on re-login.
#[derive(Clone, PartialEq, Eq, Debug)]
pub struct Profile {
    pub display_name: Vec<u8>,
    pub account_name: Vec<u8>,
}

/// The authenticated identity state for the local player.  Created at
/// process start with no token; populated after a successful login;
/// never persisted by the core.
#[derive(Clone, PartialEq, Eq, Debug)]
pub struct Session {
    pub base_url: Vec<u8>,
    pub auth_token: Option<Vec<u8>>,
    pub profile: Option<Profile>,
}

/// Which request, if any, is in flight on the background worker.
#[derive(Clone, Copy, PartialEq, Eq, Structural, Debug)]
pub enum AuthPhase {
    Idle,
    LoginPending,
    ProfilePending,
    RegisterPending,
}

/// Payload for `POST /user/login`: plain values for the worker.
#[derive(Clone, PartialEq, Eq, Debug)]
pub struct LoginCall {
    pub base_url: Vec<u8>,
    pub account_name: Vec<u8>,
    pub password: Vec<u8>,
}

/// Payload for `GET /user/me` with a bearer token.
#[derive(Clone, PartialEq, Eq, Debug)]
pub struct ProfileCall {
    pub base_url: Vec<u8>,
    pub token: Vec<u8>,
}

/// Payload for `POST /user/register`.
#[derive(Clone, PartialEq, Eq, Debug)]
pub struct RegisterCall {
    pub base_url: Vec<u8>,
    pub account_name: Vec<u8>,
    pub password: Vec<u8>,
}

/// The Identity Client: exclusive owner of the `Session`.
pub struct IdentityClient {
    pub session: Session,
    pub phase: AuthPhase,
}

impl IdentityClient {
    /// A fresh client for the given service: no token, no profile,
    /// nothing in flight.
    pub fn new(base_url: Vec<u8>) -> (c: Self)
        ensures
            c.session.base_url == base_url,
            c.session.auth_token is None,
            c.session.profile is None,
            c.phase == AuthPhase::Idle,
    {
        IdentityClient {
            session: Session { base_url, auth_token: None, profile: None },
            phase: AuthPhase::Idle,
        }
    }

    /// Ask to log in.  With a request already in flight the call is
    /// rejected as `Busy` and nothing changes; otherwise the login
    /// payload is handed to the worker and the client waits for its
    /// outcome.  The session is untouched until the outcome arrives.
    pub fn begin_login(&mut self, account_name: Vec<u8>, password: Vec<u8>) -> (r: Result<
        LoginCall,
        AuthError,
    >)
        ensures
            old(self).phase != AuthPhase::Idle ==> r == Err::<LoginCall, AuthError>(
                AuthError::Busy,
            ) && *final(self) == *old(self),
            old(self).phase == AuthPhase::Idle ==> {
                &&& r matches Ok(c) && c.base_url@ == old(self).session.base_url@
                    && c.account_name == account_name && c.password == password
                &&& final(self).phase == AuthPhase::LoginPending
                &&& final(self).session == old(self).session
            },
    {
        match self.phase {
            AuthPhase::Idle => {
                self.phase = AuthPhase::LoginPending;
                Ok(
                    LoginCall {
                        base_url: clone_bytes(&self.session.base_url),
                        account_name,
                        password,
                    },
                )
            },
            _ => Err(AuthError::Busy),
        }
    }

    /// Fold the login outcome back in: on success the token is stored;
    /// on failure the session is untouched.  Either way the worker is
    /// free again.  A stray outcome with no login in flight is dropped.
    pub fn complete_login(&mut self, outcome: Result<Vec<u8>, AuthError>)
        ensures
            old(self).phase != AuthPhase::LoginPending ==> *final(self) == *old(self),
            old(self).phase == AuthPhase::LoginPending ==> {
                &&& final(self).phase == AuthPhase::Idle
                &&& final(self).session.base_url == old(self).session.base_url
                &&& final(self).session.profile == old(self).session.profile
                &&& (match outcome {
                    Ok(token) => final(self).session.auth_token == Some(token),
                    Err(_) => final(self).session.auth_token == old(self).session.auth_token,
                })
            },
    {
        if let AuthPhase::LoginPending = self.phase {
            self.phase = AuthPhase::Idle;
            if let Ok(token) = outcome {
                self.session.auth_token = Some(token);
            }
        }
    }

    /// Ask for the profile.  Requires a stored token, which the
    /// payload carries; `Busy` while another request is in flight.
    pub fn begin_fetch_profile(&mut self) -> (r: Result<ProfileCall, AuthError>)
        requires
            old(self).session.auth_token is Some,
        ensures
            old(self).phase != AuthPhase::Idle ==> r == Err::<ProfileCall, AuthError>(
                AuthError::Busy,
            ) && *final(self) == *old(self),
            old(self).phase == AuthPhase::Idle ==> {
                &&& r matches Ok(c) && c.base_url@ == old(self).session.base_url@ && c.token@
                    == old(self).session.auth_token->0@
                &&& final(self).phase == AuthPhase::ProfilePending
                &&& final(self).session == old(self).session
            },
    {
        match self.phase {
            AuthPhase::Idle => {
                let token = match &self.session.auth_token {
                    Some(t) => clone_bytes(t),
                    None => {
                        proof {
                            assert(false);
                        }
                        Vec::new()
                    },
                };
                self.phase = AuthPhase::ProfilePending;
                Ok(ProfileCall { base_url: clone_bytes(&self.session.base_url), token })
            },
            _ => Err(AuthError::Busy),
        }
    }

    /// Fold the profile outcome back in: on success the profile is
    /// replaced wholesale; on failure it is untouched.
    pub fn complete_fetch_profile(&mut self, outcome: Result<Profile, AuthError>)
        ensures
            old(self).phase != AuthPhase::ProfilePending ==> *final(self) == *old(self),
            old(self).phase == AuthPhase::ProfilePending ==> {
                &&& final(self).phase == AuthPhase::Idle
                &&& final(self).session.base_url == old(self).session.base_url
                &&& final(self).session.auth_token == old(self).session.auth_token
                &&& (match outcome {
                    Ok(p) => final(self).session.profile == Some(p),
                    Err(_) => final(self).session.profile == old(self).session.profile,
                })
            },
    {
        if let AuthPhase::ProfilePending = self.phase {
            self.phase = AuthPhase::Idle;
            if let Ok(p) = outcome {
                self.session.profile = Some(p);
            }
        }
    }

    /// Ask to register.  Mismatched passwords are rejected here, before
    /// any call payload exists — the worker only ever contacts the
    /// service when handed a `RegisterCall`, so no network call is
    /// issued for a mismatch.  `Busy` while another request is in
    /// flight; both rejections leave the client untouched.
    pub fn begin_register(
        &mut self,
        account_name: Vec<u8>,
        password: Vec<u8>,
        repeated_password: Vec<u8>,
    ) -> (r: Result<RegisterCall, AuthError>)
        ensures
            old(self).phase != AuthPhase::Idle ==> r == Err::<RegisterCall, AuthError>(
                AuthError::Busy,
            ) && *final(self) == *old(self),
            old(self).phase == AuthPhase::Idle && password@ != repeated_password@ ==> r == Err::<
                RegisterCall,
                AuthError,
            >(AuthError::PasswordMismatch) && *final(self) == *old(self),
            old(self).phase == AuthPhase::Idle && password@ == repeated_password@ ==> {
                &&& r matches Ok(c) && c.base_url@ == old(self).session.base_url@
                    && c.account_name == account_name && c.password == password
                &&& final(self).phase == AuthPhase::RegisterPending
                &&& final(self).session == old(self).session
            },
    {
        match self.phase {
            AuthPhase::Idle => {
                if !(password == repeated_password) {
                    proof {
                        assert(password@ != repeated_password@);
                    }
                    Err(AuthError::PasswordMismatch)
                } else {
                    proof {
                        assert(password@ =~= repeated_password@);
                    }
                    self.phase = AuthPhase::RegisterPending;
                    Ok(
                        RegisterCall {
                            base_url: clone_bytes(&self.session.base_url),
                            account_name,
                            password,
                        },
                    )
                }
            },
            _ => Err(AuthError::Busy),
        }
    }

    /// Fold the register outcome back in.  Registration never logs the
    /// player in: the session is untouched either way.
    pub fn complete_register(&mut self)
        ensures
            old(self).phase == AuthPhase::RegisterPending ==> final(self).phase == AuthPhase::Idle
                && final(self).session == old(self).session,
            old(self).phase != AuthPhase::RegisterPending ==> *final(self) == *old(self),
    {
        if let AuthPhase::RegisterPending = self.phase {
            self.phase = AuthPhase::Idle;
        }
    }
}

/// Copy a byte string.
fn clone_bytes(v: &Vec<u8>) -> (r: Vec<u8>)
    ensures
        r@ == v@,
{
    let mut r: Vec<u8> = Vec::new();
    let n = v.len();
    let mut i: usize = 0;
    while i < n
        invariant
            0 <= i <= n,
            n == v@.len(),
            r@ == v@.take(i as int),
        decreases n - i,
    {
        r.push(v[i]);
        proof {
            assert(r@ =~= v@.take(i + 1));
        }
        i = i + 1;
    }
    proof {
        assert(v@.take(n as int) =~= v@);
    }
    r
}

/// Map the login endpoint's wire outcome to the session-level result:
/// a 2xx status yields the returned token, 401 and 403 are a
/// credential rejection, and any other status — like a connection-level
/// failure — means the service could not be used.
pub fn login_outcome(status: u16, token: Vec<u8>) -> (r: Result<Vec<u8>, AuthError>)
    ensures
        200 <= status < 300 ==> r == Ok::<Vec<u8>, AuthError>(token),
        status == 401 || status == 403 ==> r == Err::<Vec<u8>, AuthError>(
            AuthError::InvalidCredentials,
        ),
        !(200 <= status < 300) && status != 401 && status != 403 ==> r == Err::<Vec<u8>, AuthError>(
            AuthError::Unreachable,
        ),
{
    if 200 <= status && status < 300 {
        Ok(token)
    } else if status == 401 || status == 403 {
        Err(AuthError::InvalidCredentials)
    } else {
        Err(AuthError::Unreachable)
    }
}

/// Map the profile endpoint's wire outcome: a 2xx status yields the
/// returned record, 401 and 403 mean the token expired, anything else
/// means the service could not be used.
pub fn profile_outcome(status: u16, display_name: Vec<u8>, account_name: Vec<u8>) -> (r: Result<
    Profile,
    AuthError,
>)
    ensures
        200 <= status < 300 ==> (r matches Ok(p) && p.display_name == display_name
            && p.account_name == account_name),
        status == 401 || status == 403 ==> r == Err::<Profile, AuthError>(AuthError::Expired),
        !(200 <= status < 300) && status != 401 && status != 403 ==> r == Err::<Profile, AuthError>(
            AuthError::Unreachable,
        ),
{
    if 200 <= status && status < 300 {
        Ok(Profile { display_name, account_name })
    } else if status == 401 || status == 403 {
        Err(AuthError::Expired)
    } else {
        Err(AuthError::Unreachable)
    }
}

/// Map the register endpoint's wire outcome: a 2xx status is success,
/// 409 is a server-side account conflict, anything else means the
/// service could not be used.
pub fn register_outcome(status: u16) -> (r: Result<(), AuthError>)
    ensures
        200 <= status < 300 ==> r == Ok::<(), AuthError>(()),
        status == 409 ==> r == Err::<(), AuthError>(AuthError::AccountExists),
        !(200 <= status < 300) && status != 409 ==> r == Err::<(), AuthError>(
            AuthError::Unreachable,
        ),
{
    if 200 <= status && status < 300 {
        Ok(())
    } else if status == 409 {
        Err(AuthError::AccountExists)
    } else {
        Err(AuthError::Unreachable)
    }
}

} // verus!
