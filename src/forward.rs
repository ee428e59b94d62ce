use crate::errors::{response_error_of, return_response_error, ApiError};
use crate::proxy::{backoff_wait, raised_backoff, ApiProxy, AuthInfo};
use vstd::prelude::*;

verus! {

/// Where a forwarded call stands.
#[derive(Debug)]
pub enum ForwardPhase {
    /// Nothing done yet.
    Start,
    /// Making sure the session holds a valid token.
    Authorizing,
    /// Waiting out the session's rate-limit deadline.
    BackingOff,
    /// The upstream request is out.
    Sending,
    /// The token was rejected; validating once more before failing.
    Revalidating,
    /// The call is over.
    Finished,
}

/// What the caller reports back about a forwarded call.
#[derive(Debug)]
pub enum ForwardEvent {
    /// Start the call.
    Begin,
    /// The outcome of making sure of a valid token.
    Authorized(Result<(), ApiError>),
    /// The requested wait is over.
    Waited,
    /// The upstream answered with this status and, for a rate limit, the
    /// `Retry-After` seconds if they could be read.
    Answered { status: u16, retry_after: Option<u64> },
    /// The upstream could not be reached.
    Unreachable,
}

/// How a forwarded call ends.
#[derive(Debug)]
pub enum ForwardReply {
    /// Pass on the upstream's JSON body with status 200.
    Body,
    /// Answer an empty JSON object with status 204.
    NoContent,
    /// Fail with this error.
    Failed(ApiError),
}

/// What the caller is to do next for a forwarded call.
#[derive(Debug)]
pub enum ForwardAction {
    /// Make sure the session holds a valid token and report the outcome.
    EnsureValid,
    /// Sleep this many milliseconds, then report.
    Sleep(u64),
    /// Send the upstream request with this bearer token and report the answer.
    Send(String),
    /// The call is over.
    Reply(ForwardReply),
}

/// One forwarded call.
#[derive(Debug)]
pub struct ForwardCall {
    pub phase: ForwardPhase,
}

/// The step taken once the token is valid: wait out the backoff, else send
/// with the held token.
pub open spec fn after_authorized(p: ApiProxy, now: u64) -> (ForwardPhase, ApiProxy, ForwardAction) {
    if backoff_wait(p.backoff, now) > 0 {
        (ForwardPhase::BackingOff, p, ForwardAction::Sleep(backoff_wait(p.backoff, now)))
    } else {
        send_with_token(p)
    }
}

/// The step that sends the request with the held token.
pub open spec fn send_with_token(p: ApiProxy) -> (ForwardPhase, ApiProxy, ForwardAction) {
    match p.auth_info.access_token {
        Some(t) => (ForwardPhase::Sending, p, ForwardAction::Send(t.token)),
        None => (
            ForwardPhase::Finished,
            p,
            ForwardAction::Reply(ForwardReply::Failed(ApiError::NoAccessToken)),
        ),
    }
}

/// How an upstream answer at `now` moves the call on.
pub open spec fn on_answer(p: ApiProxy, status: u16, retry_after: Option<u64>, now: u64) -> (
    ForwardPhase,
    ApiProxy,
    ForwardAction,
) {
    if status == 200 {
        (ForwardPhase::Finished, p, ForwardAction::Reply(ForwardReply::Body))
    } else if status == 204 {
        (ForwardPhase::Finished, p, ForwardAction::Reply(ForwardReply::NoContent))
    } else if status == 401 {
        (
            ForwardPhase::Revalidating,
            ApiProxy { auth_info: AuthInfo { access_token: None, ..p.auth_info }, ..p },
            ForwardAction::EnsureValid,
        )
    } else if status == 429 {
        (
            ForwardPhase::Finished,
            ApiProxy { backoff: raised_backoff(p.backoff, now, retry_after), ..p },
            ForwardAction::Reply(ForwardReply::Failed(ApiError::ResponseError429)),
        )
    } else {
        (
            ForwardPhase::Finished,
            p,
            ForwardAction::Reply(ForwardReply::Failed(response_error_of(status))),
        )
    }
}

/// The whole transition of a forwarded call: from a phase, a session and an
/// event at `now`, to the next phase, the session after it and the action.
pub open spec fn forward_next(phase: ForwardPhase, p: ApiProxy, event: ForwardEvent, now: u64) -> (
    ForwardPhase,
    ApiProxy,
    ForwardAction,
) {
    match (phase, event) {
        (ForwardPhase::Start, ForwardEvent::Begin) => (
            ForwardPhase::Authorizing,
            p,
            ForwardAction::EnsureValid,
        ),
        (ForwardPhase::Authorizing, ForwardEvent::Authorized(res)) => match res {
            Ok(_) => after_authorized(p, now),
            Err(e) => (ForwardPhase::Finished, p, ForwardAction::Reply(ForwardReply::Failed(e))),
        },
        (ForwardPhase::BackingOff, ForwardEvent::Waited) => after_authorized(p, now),
        (ForwardPhase::Sending, ForwardEvent::Unreachable) => (
            ForwardPhase::Finished,
            p,
            ForwardAction::Reply(ForwardReply::Failed(ApiError::RequestError)),
        ),
        (ForwardPhase::Sending, ForwardEvent::Answered { status, retry_after }) => on_answer(
            p,
            status,
            retry_after,
            now,
        ),
        (ForwardPhase::Revalidating, ForwardEvent::Authorized(res)) => (
            ForwardPhase::Finished,
            p,
            ForwardAction::Reply(
                ForwardReply::Failed(
                    match res {
                        Ok(_) => ApiError::InvalidAccessToken,
                        Err(e) => e,
                    },
                ),
            ),
        ),
        _ => (
            ForwardPhase::Finished,
            p,
            ForwardAction::Reply(ForwardReply::Failed(ApiError::InternalServerError)),
        ),
    }
}

impl ForwardCall {
    /// A call that has not started.
    pub fn new() -> (r: ForwardCall)
        ensures
            r.phase is Start,
    {
        ForwardCall { phase: ForwardPhase::Start }
    }

    fn send(&mut self, proxy: &ApiProxy) -> (r: ForwardAction)
        ensures
            (final(self).phase, *proxy, r) == send_with_token(*proxy),
    {
        match &proxy.auth_info.access_token {
            Some(t) => {
                self.phase = ForwardPhase::Sending;
                ForwardAction::Send(t.token.clone())
            },
            None => {
                self.phase = ForwardPhase::Finished;
                ForwardAction::Reply(ForwardReply::Failed(ApiError::NoAccessToken))
            },
        }
    }

    fn after_wait_or_send(&mut self, proxy: &ApiProxy, now: u64) -> (r: ForwardAction)
        ensures
            (final(self).phase, *proxy, r) == after_authorized(*proxy, now),
    {
        let wait = proxy.execute_backoff(now);
        if wait > 0 {
            self.phase = ForwardPhase::BackingOff;
            ForwardAction::Sleep(wait)
        } else {
            self.send(proxy)
        }
    }

    /// Advances the call by one event at time `now`, updating the session, and
    /// says what to do next.
    pub fn step(&mut self, proxy: &mut ApiProxy, event: ForwardEvent, now: u64) -> (r:
        ForwardAction)
        ensures
            (final(self).phase, *final(proxy), r) == forward_next(
                old(self).phase,
                *old(proxy),
                event,
                now,
            ),
    {
        match (&self.phase, event) {
            (ForwardPhase::Start, ForwardEvent::Begin) => {
                self.phase = ForwardPhase::Authorizing;
                ForwardAction::EnsureValid
            },
            (ForwardPhase::Authorizing, ForwardEvent::Authorized(res)) => {
                match res {
                    Ok(()) => self.after_wait_or_send(proxy, now),
                    Err(e) => {
                        self.phase = ForwardPhase::Finished;
                        ForwardAction::Reply(ForwardReply::Failed(e))
                    },
                }
            },
            (ForwardPhase::BackingOff, ForwardEvent::Waited) => self.after_wait_or_send(proxy, now),
            (ForwardPhase::Sending, ForwardEvent::Unreachable) => {
                self.phase = ForwardPhase::Finished;
                ForwardAction::Reply(ForwardReply::Failed(ApiError::RequestError))
            },
            (ForwardPhase::Sending, ForwardEvent::Answered { status, retry_after }) => {
                if status == 200 {
                    self.phase = ForwardPhase::Finished;
                    ForwardAction::Reply(ForwardReply::Body)
                } else if status == 204 {
                    self.phase = ForwardPhase::Finished;
                    ForwardAction::Reply(ForwardReply::NoContent)
                } else if status == 401 {
                    proxy.clear_access_token();
                    self.phase = ForwardPhase::Revalidating;
                    ForwardAction::EnsureValid
                } else if status == 429 {
                    proxy.record_rate_limit(now, retry_after);
                    self.phase = ForwardPhase::Finished;
                    ForwardAction::Reply(ForwardReply::Failed(ApiError::ResponseError429))
                } else {
                    self.phase = ForwardPhase::Finished;
                    ForwardAction::Reply(ForwardReply::Failed(return_response_error(status)))
                }
            },
            (ForwardPhase::Revalidating, ForwardEvent::Authorized(res)) => {
                self.phase = ForwardPhase::Finished;
                let e = match res {
                    Ok(()) => ApiError::InvalidAccessToken,
                    Err(e) => e,
                };
                ForwardAction::Reply(ForwardReply::Failed(e))
            },
            _ => {
                self.phase = ForwardPhase::Finished;
                ForwardAction::Reply(ForwardReply::Failed(ApiError::InternalServerError))
            },
        }
    }
}

} // verus!

verus! {

/// A 401 clears the session's access token and asks for exactly one more
/// validation; whatever that validation gives, the call then ends failed, and
/// a finished call takes no further step.
pub proof fn lemma_unauthorized_revalidates_once(
    p: ApiProxy,
    retry_after: Option<u64>,
    now: u64,
    res: Result<(), ApiError>,
    later: u64,
    event: ForwardEvent,
    last: u64,
)
    ensures
        ({
            let (phase, p1, a) = forward_next(
                ForwardPhase::Sending,
                p,
                ForwardEvent::Answered { status: 401, retry_after },
                now,
            );
            &&& phase is Revalidating
            &&& a == ForwardAction::EnsureValid
            &&& p1.auth_info.access_token is None
            &&& p1.auth_info.refresh_token == p.auth_info.refresh_token
            &&& p1.backoff == p.backoff
            &&& {
                let (phase2, p2, a2) = forward_next(
                    phase,
                    p1,
                    ForwardEvent::Authorized(res),
                    later,
                );
                &&& phase2 is Finished
                &&& p2 == p1
                &&& a2 == ForwardAction::Reply(
                    ForwardReply::Failed(
                        match res {
                            Ok(_) => ApiError::InvalidAccessToken,
                            Err(e) => e,
                        },
                    ),
                )
                &&& forward_next(phase2, p2, event, last).2 == ForwardAction::Reply(
                    ForwardReply::Failed(ApiError::InternalServerError),
                )
            }
        }),
{
}

/// After a 429 with `Retry-After: r` seconds answered at `t`, the session's
/// next call, once its token is valid at any later `t2`, sends nothing before
/// `r` seconds after `t`: it sleeps until then, and checks again after each
/// sleep. Validation leaves the backoff deadline alone, so `q` is the session
/// as the next call finds it.
pub proof fn lemma_rate_limited_session_waits(
    p: ApiProxy,
    r: u64,
    t: u64,
    q: ApiProxy,
    t2: u64,
)
    requires
        t + r * 1000 <= u64::MAX,
        t <= t2,
        q.backoff == forward_next(
            ForwardPhase::Sending,
            p,
            ForwardEvent::Answered { status: 429, retry_after: Some(r) },
            t,
        ).1.backoff,
    ensures
        forward_next(
            ForwardPhase::Sending,
            p,
            ForwardEvent::Answered { status: 429, retry_after: Some(r) },
            t,
        ).2 == ForwardAction::Reply(ForwardReply::Failed(ApiError::ResponseError429)),
        ({
            let a = forward_next(ForwardPhase::Authorizing, q, ForwardEvent::Authorized(Ok(())), t2).2;
            let b = forward_next(ForwardPhase::BackingOff, q, ForwardEvent::Waited, t2).2;
            &&& t2 < t + r * 1000 ==> a is Sleep && t2 + a->Sleep_0 >= t + r * 1000
            &&& t2 < t + r * 1000 ==> b is Sleep && t2 + b->Sleep_0 >= t + r * 1000
            &&& a is Send ==> t2 >= t + r * 1000
            &&& b is Send ==> t2 >= t + r * 1000
        }),
{
}

} // verus!
