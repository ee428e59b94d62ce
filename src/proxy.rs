use crate::errors::{response_error_of, return_response_error, ApiError};
use vstd::prelude::*;

verus! {

/// Seconds of backoff after a rate limit that carried no usable `Retry-After`.
/// Times are kept in milliseconds; `Retry-After` and token lifetimes come in
/// seconds.
pub const DEFAULT_BACKOFF_SECS: u64 = 5;

/// The settings that every session of the proxy shares.
#[derive(Debug, Clone)]
pub struct ProxyConfig {
    /// The OAuth application id.
    pub application_id: String,
    /// The scope requested at login.
    pub scope: String,
    /// The base URL of the upstream API.
    pub base_url: String,
    /// The redirect URI that the provider sends the browser back to.
    pub callback_url: String,
}

/// An access token and the time, in milliseconds, at which it expires.
#[derive(Debug)]
pub struct AccessToken {
    pub token: String,
    pub expires_at: u64,
}

/// The credentials of one session. An access token may be past its expiry:
/// that is checked when the token is needed.
#[derive(Debug)]
pub struct AuthInfo {
    pub access_token: Option<AccessToken>,
    pub refresh_token: Option<String>,
    /// An authorization code handed over by the browser callback, not yet used.
    pub cb_auth_code: Option<String>,
}

/// One session: its settings, credentials and rate-limit deadline.
#[derive(Debug)]
pub struct ApiProxy {
    pub config: ProxyConfig,
    /// Time, in milliseconds, before which no upstream call may be made.
    pub backoff: u64,
    /// The session's identifier.
    pub user_client_id: u64,
    pub auth_info: AuthInfo,
    /// Whether a refresh or a login of this session is in progress.
    pub auth_in_flight: bool,
}

/// Whether the session holds an access token that has not expired at `now`.
pub open spec fn token_fresh(info: AuthInfo, now: u64) -> bool {
    match info.access_token {
        Some(t) => now <= t.expires_at,
        None => false,
    }
}

/// What making sure of a valid token calls for.
#[derive(Debug)]
pub enum AuthStep {
    /// The held access token is valid: no network call is needed.
    Ready,
    /// The access token is missing or expired; refresh with this token.
    Refresh(String),
    /// Nothing to refresh with: a browser login is needed.
    Login,
}

/// The step that a session's credentials call for at `now`.
pub open spec fn auth_step_of(info: AuthInfo, now: u64) -> AuthStep {
    if token_fresh(info, now) {
        AuthStep::Ready
    } else {
        match info.refresh_token {
            Some(rt) => AuthStep::Refresh(rt),
            None => AuthStep::Login,
        }
    }
}

/// Milliseconds to wait at `now` before an upstream call is allowed.
pub open spec fn backoff_wait(backoff: u64, now: u64) -> u64 {
    if backoff > now {
        (backoff - now) as u64
    } else {
        0
    }
}

/// The deadline set by a rate limit at `now`: `Retry-After` seconds later, or
/// the default when there was none, saturating at the largest time.
pub open spec fn rate_limit_deadline(now: u64, retry_after: Option<u64>) -> u64 {
    let secs = match retry_after {
        Some(s) => s,
        None => DEFAULT_BACKOFF_SECS,
    };
    later_by_secs(now, secs)
}

/// The time `secs` seconds after `now`, saturating at the largest time.
pub open spec fn later_by_secs(now: u64, secs: u64) -> u64 {
    if now + secs * 1000 > u64::MAX {
        u64::MAX
    } else {
        (now + secs * 1000) as u64
    }
}

/// The time `secs` seconds after `now`, saturating at the largest time.
pub fn add_secs(now: u64, secs: u64) -> (r: u64)
    ensures
        r == later_by_secs(now, secs),
{
    if secs > u64::MAX / 1000 {
        assert(secs * 1000 > u64::MAX) by (nonlinear_arith)
            requires
                secs > u64::MAX / 1000,
        ;
        return u64::MAX;
    }
    assert(secs * 1000 <= u64::MAX) by (nonlinear_arith)
        requires
            secs <= u64::MAX / 1000,
    ;
    now.saturating_add(secs * 1000)
}

/// What the token endpoint answered.
#[derive(Debug)]
pub enum TokenReply {
    /// The endpoint could not be reached.
    Unreachable,
    /// A status outside 2xx.
    Rejected(u16),
    /// A 2xx answer whose body is no JSON.
    Unreadable,
    /// A 2xx answer, with the fields read from its JSON body.
    Fields { access_token: Option<String>, expires_in: Option<u64>, refresh_token: Option<String> },
}

/// The expiry of a token granted at `now` for `secs` seconds, saturating.
pub open spec fn expiry_at(now: u64, secs: u64) -> u64 {
    later_by_secs(now, secs)
}

/// The error of a token answer, if it is not a usable grant. A login must be
/// answered with a refresh token; a refresh may go without one.
pub open spec fn token_reply_error(reply: TokenReply, needs_refresh_token: bool) -> Option<ApiError> {
    match reply {
        TokenReply::Unreachable => Some(ApiError::RequestError),
        TokenReply::Rejected(s) => Some(response_error_of(s)),
        TokenReply::Unreadable => Some(ApiError::ResponseParseError),
        TokenReply::Fields { access_token, expires_in, refresh_token } => {
            if access_token is None || expires_in is None || (needs_refresh_token
                && refresh_token is None) {
                Some(ApiError::ResponseDataError)
            } else {
                None
            }
        },
    }
}

/// The credentials after a usable token answer at `now`: the new access token,
/// and the new refresh token if one came, else the one held before.
pub open spec fn granted_info(info: AuthInfo, reply: TokenReply, now: u64) -> AuthInfo {
    match reply {
        TokenReply::Fields { access_token, expires_in, refresh_token } => AuthInfo {
            access_token: Some(
                AccessToken { token: access_token->0, expires_at: expiry_at(now, expires_in->0) },
            ),
            refresh_token: match refresh_token {
                Some(rt) => Some(rt),
                None => info.refresh_token,
            },
            cb_auth_code: info.cb_auth_code,
        },
        _ => info,
    }
}

/// Credentials that hold nothing.
pub open spec fn empty_info() -> AuthInfo {
    AuthInfo { access_token: None, refresh_token: None, cb_auth_code: None }
}

/// Two sessions that agree on everything but their credentials.
pub open spec fn same_but_auth(a: ApiProxy, b: ApiProxy) -> bool {
    a.config == b.config && a.user_client_id == b.user_client_id && a.backoff == b.backoff
        && a.auth_in_flight == b.auth_in_flight
}

/// The backoff deadline after a rate limit at `now`: it only ever moves later.
pub open spec fn raised_backoff(backoff: u64, now: u64, retry_after: Option<u64>) -> u64 {
    let d = rate_limit_deadline(now, retry_after);
    if d > backoff {
        d
    } else {
        backoff
    }
}

impl ApiProxy {
    /// A fresh session with no credentials and no backoff.
    pub fn new(user_client_id: u64, config: ProxyConfig, now: u64) -> (r: ApiProxy)
        ensures
            r.user_client_id == user_client_id,
            r.config == config,
            r.backoff == now,
            r.auth_info.access_token is None,
            r.auth_info.refresh_token is None,
            r.auth_info.cb_auth_code is None,
            !r.auth_in_flight,
    {
        ApiProxy {
            config,
            backoff: now,
            user_client_id,
            auth_info: AuthInfo { access_token: None, refresh_token: None, cb_auth_code: None },
            auth_in_flight: false,
        }
    }

    /// Stores an authorization code from the browser callback, replacing any
    /// code not yet used.
    pub fn set_cb_auth_code(&mut self, code: String)
        ensures
            *final(self) == (ApiProxy {
                auth_info: AuthInfo { cb_auth_code: Some(code), ..old(self).auth_info },
                ..*old(self)
            }),
    {
        self.auth_info.cb_auth_code = Some(code);
    }

    /// Discards any authorization code not yet used.
    pub fn unset_cb_auth_code(&mut self)
        ensures
            *final(self) == (ApiProxy {
                auth_info: AuthInfo { cb_auth_code: None, ..old(self).auth_info },
                ..*old(self)
            }),
    {
        self.auth_info.cb_auth_code = None;
    }

    /// Takes the stored authorization code, leaving none.
    pub fn take_cb_auth_code(&mut self) -> (r: Option<String>)
        ensures
            r == old(self).auth_info.cb_auth_code,
            *final(self) == (ApiProxy {
                auth_info: AuthInfo { cb_auth_code: None, ..old(self).auth_info },
                ..*old(self)
            }),
    {
        self.auth_info.cb_auth_code.take()
    }

    /// Seconds to wait before the next upstream call: the time left until the
    /// backoff deadline, or 0 once it has passed.
    pub fn execute_backoff(&self, now: u64) -> (r: u64)
        ensures
            r == backoff_wait(self.backoff, now),
    {
        if self.backoff > now {
            self.backoff - now
        } else {
            0
        }
    }

    /// Records a rate limit answered at `now`, with the `Retry-After` seconds
    /// if the answer carried them. A deadline already further away is kept.
    pub fn record_rate_limit(&mut self, now: u64, retry_after: Option<u64>)
        ensures
            *final(self) == (ApiProxy {
                backoff: raised_backoff(old(self).backoff, now, retry_after),
                ..*old(self)
            }),
            final(self).backoff >= old(self).backoff,
    {
        let secs = match retry_after {
            Some(s) => s,
            None => DEFAULT_BACKOFF_SECS,
        };
        let deadline = add_secs(now, secs);
        if deadline > self.backoff {
            self.backoff = deadline;
        }
    }

    /// Forgets the access token after the upstream rejected it.
    pub fn clear_access_token(&mut self)
        ensures
            *final(self) == (ApiProxy {
                auth_info: AuthInfo { access_token: None, ..old(self).auth_info },
                ..*old(self)
            }),
    {
        self.auth_info.access_token = None;
    }

    /// Forgets both tokens and any pending authorization code.
    pub fn clear_credentials(&mut self)
        ensures
            *final(self) == (ApiProxy { auth_info: empty_info(), ..*old(self) }),
    {
        self.auth_info = AuthInfo { access_token: None, refresh_token: None, cb_auth_code: None };
    }

    fn apply_token_reply(&mut self, reply: TokenReply, now: u64, needs_refresh_token: bool) -> (r:
        Result<(), ApiError>)
        ensures
            same_but_auth(*old(self), *final(self)),
            match token_reply_error(reply, needs_refresh_token) {
                Some(e) => r == Err::<(), ApiError>(e) && final(self).auth_info == empty_info(),
                None => r == Ok::<(), ApiError>(()) && final(self).auth_info == granted_info(
                    old(self).auth_info,
                    reply,
                    now,
                ),
            },
    {
        let err = match reply {
            TokenReply::Unreachable => ApiError::RequestError,
            TokenReply::Rejected(s) => return_response_error(s),
            TokenReply::Unreadable => ApiError::ResponseParseError,
            TokenReply::Fields { access_token, expires_in, refresh_token } => {
                match (access_token, expires_in) {
                    (Some(at), Some(secs)) => {
                        if needs_refresh_token && refresh_token.is_none() {
                            ApiError::ResponseDataError
                        } else {
                            self.auth_info.access_token = Some(
                                AccessToken { token: at, expires_at: add_secs(now, secs) },
                            );
                            if let Some(rt) = refresh_token {
                                self.auth_info.refresh_token = Some(rt);
                            }
                            return Ok(());
                        }
                    },
                    _ => ApiError::ResponseDataError,
                }
            },
        };
        self.clear_credentials();
        Err(err)
    }

    /// Applies the answer to a refresh at `now`. A usable answer stores the new
    /// access token, and the new refresh token if one came; any failure clears
    /// both tokens, so that a browser login follows.
    pub fn finish_refresh(&mut self, reply: TokenReply, now: u64) -> (r: Result<(), ApiError>)
        ensures
            same_but_auth(*old(self), *final(self)),
            match token_reply_error(reply, false) {
                Some(e) => r == Err::<(), ApiError>(e) && final(self).auth_info == empty_info(),
                None => r == Ok::<(), ApiError>(()) && final(self).auth_info == granted_info(
                    old(self).auth_info,
                    reply,
                    now,
                ),
            },
    {
        self.apply_token_reply(reply, now, false)
    }

    /// Applies the answer to an authorization-code exchange at `now`. A usable
    /// answer carries both tokens and stores them; any failure clears the
    /// credentials, so that the next validation starts a new login.
    pub fn finish_login(&mut self, reply: TokenReply, now: u64) -> (r: Result<(), ApiError>)
        ensures
            same_but_auth(*old(self), *final(self)),
            match token_reply_error(reply, true) {
                Some(e) => r == Err::<(), ApiError>(e) && final(self).auth_info == empty_info(),
                None => r == Ok::<(), ApiError>(()) && final(self).auth_info == granted_info(
                    old(self).auth_info,
                    reply,
                    now,
                ),
            },
    {
        self.apply_token_reply(reply, now, true)
    }

    /// What is needed at `now` for the session to hold a valid access token.
    pub fn validate_auth(&self, now: u64) -> (r: AuthStep)
        ensures
            r == auth_step_of(self.auth_info, now),
    {
        let fresh = match &self.auth_info.access_token {
            Some(t) => now <= t.expires_at,
            None => false,
        };
        if fresh {
            AuthStep::Ready
        } else {
            match &self.auth_info.refresh_token {
                Some(rt) => AuthStep::Refresh(rt.clone()),
                None => AuthStep::Login,
            }
        }
    }
}

/// An unexpired access token needs no network call to be validated.
pub proof fn lemma_fresh_token_needs_no_network(info: AuthInfo, now: u64)
    requires
        token_fresh(info, now),
    ensures
        auth_step_of(info, now) == AuthStep::Ready,
{
}

/// After a rate limit at `t` with `Retry-After: r` seconds, whatever deadline
/// was held before, a call at any later time `t2` waits until at least `r`
/// seconds after `t`.
pub proof fn lemma_rate_limit_delays_next_call(backoff: u64, t: u64, r: u64, t2: u64)
    requires
        t <= t2,
        t + r * 1000 <= u64::MAX,
    ensures
        t2 + backoff_wait(raised_backoff(backoff, t, Some(r)), t2) >= t + r * 1000,
{
}

} // verus!

verus! {

/// Once a refresh has succeeded, every validation made before the new token
/// expires finds it valid and calls for no second refresh.
pub proof fn lemma_refresh_serves_waiters(info: AuthInfo, reply: TokenReply, now: u64, later: u64)
    requires
        token_reply_error(reply, false) is None,
        now <= later <= expiry_at(now, reply->expires_in->0),
    ensures
        auth_step_of(granted_info(info, reply, now), later) == AuthStep::Ready,
{
}

} // verus!
