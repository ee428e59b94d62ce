use crate::errors::ApiError;
use crate::forms::{
    authorize_params, authorize_params_spec, exchange_form, exchange_form_spec, pairs_view,
    refresh_form, refresh_form_spec, url_with_params, url_with_query, AUTHORIZE_URL,
};
use crate::pkce::{base64_url_unpadded, gen_challenge, gen_random_state, sha256_digest, state_charset};
use crate::proxy::{
    auth_step_of, empty_info, granted_info, token_reply_error, ApiProxy, AuthInfo, AuthStep,
    TokenReply,
};
use vstd::prelude::*;
use vstd::utf8::encode_utf8;

verus! {

/// Characters in the PKCE verifier of a login.
pub const STATE_LEN: usize = 64;

/// Where a run of the authentication state machine stands.
#[derive(Debug)]
pub enum AuthPhase {
    /// Nothing done yet.
    Start,
    /// A refresh request is out.
    Refreshing,
    /// The browser is being opened on the login page.
    Opening,
    /// Waiting for the browser callback to hand over a code.
    AwaitingCode,
    /// The code is being exchanged for tokens.
    Exchanging,
    /// The run is over.
    Finished,
}

/// One run of making sure that a session holds a valid access token.
#[derive(Debug)]
pub struct AuthFlow {
    pub phase: AuthPhase,
    /// The PKCE verifier of the login in progress, if any.
    pub verifier: String,
}

/// What the caller reports back to the state machine.
#[derive(Debug)]
pub enum AuthEvent {
    /// Start the run.
    Begin,
    /// The token endpoint answered a posted form.
    TokenReplied(TokenReply),
    /// Whether the browser could be opened.
    BrowserOpened(bool),
    /// The browser callback signalled the session.
    CodeSignalled,
    /// The caller gives the run up; a run holding its session's turn gives
    /// it back.
    Abandon,
}

/// What the state machine asks the caller to do next.
#[derive(Debug)]
pub enum AuthAction {
    /// Post this form to the token endpoint and report the answer.
    PostTokenForm(Vec<(String, String)>),
    /// Open the system browser on this URL and report whether it worked.
    OpenBrowser(String),
    /// Wait until the browser callback signals the session.
    AwaitCode,
    /// Another run holds the session's turn: wait until it ends, then begin
    /// again.
    AwaitTurn,
    /// The run is over with this result.
    Finish(Result<(), ApiError>),
}

/// Whether an action posts a form with the given pairs.
pub open spec fn posts_form(a: AuthAction, form: Seq<(Seq<char>, Seq<char>)>) -> bool {
    match a {
        AuthAction::PostTokenForm(v) => pairs_view(v@) == form,
        _ => false,
    }
}

/// The login page of a session for a given PKCE verifier, or `None` when no
/// URL can be built.
pub open spec fn login_url(p: ApiProxy, verifier: Seq<char>) -> Option<Seq<char>> {
    url_with_query(
        AUTHORIZE_URL@,
        authorize_params_spec(
            p.config,
            base64_url_unpadded(sha256_digest(encode_utf8(verifier))),
            p.user_client_id,
        ),
    )
}

/// The session with its pending authorization code dropped.
pub open spec fn code_dropped(p: ApiProxy) -> ApiProxy {
    ApiProxy { auth_info: AuthInfo { cb_auth_code: None, ..p.auth_info }, ..p }
}

/// The session with its turn given back.
pub open spec fn released(p: ApiProxy) -> ApiProxy {
    ApiProxy { auth_in_flight: false, ..p }
}

/// The session with its turn taken.
pub open spec fn taken(p: ApiProxy) -> ApiProxy {
    ApiProxy { auth_in_flight: true, ..p }
}

/// Whether a run in this phase holds its session's turn.
pub open spec fn holds_turn(phase: AuthPhase) -> bool {
    phase is Refreshing || phase is Opening || phase is AwaitingCode || phase is Exchanging
}

/// A browser login was started from session `before`: any stale code was
/// dropped and a fresh verifier drawn; the browser is sent to the login page,
/// or, when no login URL can be built, the run fails and gives the turn back.
pub open spec fn login_started(before: ApiProxy, p: ApiProxy, flow: AuthFlow, a: AuthAction) -> bool {
    &&& flow.verifier@.len() == STATE_LEN
    &&& forall|i: int| 0 <= i < STATE_LEN ==> state_charset().contains(#[trigger] flow.verifier@[i])
    &&& match login_url(before, flow.verifier@) {
        Some(u) => a is OpenBrowser && a->OpenBrowser_0@ == u && flow.phase is Opening && p
            == code_dropped(before),
        None => a == AuthAction::Finish(Err(ApiError::RequestError)) && flow.phase is Finished
            && p == released(code_dropped(before)),
    }
}

/// One step of a run: from run `f0` on session `p0`, the event at `now`
/// leads to run `f1`, session `p1` and action `a`. A session lets one run at
/// a time refresh or log in; a run that finds the turn taken waits for it.
pub open spec fn auth_next(
    f0: AuthFlow,
    p0: ApiProxy,
    event: AuthEvent,
    now: u64,
    f1: AuthFlow,
    p1: ApiProxy,
    a: AuthAction,
) -> bool {
    match (f0.phase, event) {
        (AuthPhase::Start, AuthEvent::Begin) => if p0.auth_in_flight {
            a == AuthAction::AwaitTurn && f1 == f0 && p1 == p0
        } else {
            match auth_step_of(p0.auth_info, now) {
                AuthStep::Ready => a == AuthAction::Finish(Ok(())) && f1.phase is Finished
                    && f1.verifier == f0.verifier && p1 == p0,
                AuthStep::Refresh(rt) => posts_form(
                    a,
                    refresh_form_spec(rt@, p0.config.application_id@),
                ) && f1.phase is Refreshing && f1.verifier == f0.verifier && p1 == taken(p0),
                AuthStep::Login => login_started(taken(p0), p1, f1, a),
            }
        },
        (AuthPhase::Refreshing, AuthEvent::TokenReplied(reply)) => match token_reply_error(
            reply,
            false,
        ) {
            None => a == AuthAction::Finish(Ok(())) && f1.phase is Finished && f1.verifier
                == f0.verifier && p1 == released(
                ApiProxy { auth_info: granted_info(p0.auth_info, reply, now), ..p0 },
            ),
            Some(_) => login_started(ApiProxy { auth_info: empty_info(), ..p0 }, p1, f1, a),
        },
        (AuthPhase::Opening, AuthEvent::BrowserOpened(opened)) => f1.verifier == f0.verifier
            && if opened {
            a == AuthAction::AwaitCode && f1.phase is AwaitingCode && p1 == p0
        } else {
            a == AuthAction::Finish(Err(ApiError::BrowserError)) && f1.phase is Finished && p1
                == released(p0)
        },
        (AuthPhase::AwaitingCode, AuthEvent::CodeSignalled) => f1.verifier == f0.verifier
            && match p0.auth_info.cb_auth_code {
            None => a == AuthAction::AwaitCode && f1.phase is AwaitingCode && p1 == p0,
            Some(c) => posts_form(
                a,
                exchange_form_spec(
                    c@,
                    p0.config.callback_url@,
                    f0.verifier@,
                    p0.config.application_id@,
                ),
            ) && f1.phase is Exchanging && p1 == code_dropped(p0),
        },
        (AuthPhase::Exchanging, AuthEvent::TokenReplied(reply)) => f1.phase is Finished
            && f1.verifier == f0.verifier && match token_reply_error(reply, true) {
            None => a == AuthAction::Finish(Ok(())) && p1 == released(
                ApiProxy { auth_info: granted_info(p0.auth_info, reply, now), ..p0 },
            ),
            Some(e) => a == AuthAction::Finish(Err(e)) && p1 == released(
                ApiProxy { auth_info: empty_info(), ..p0 },
            ),
        },
        _ => a == AuthAction::Finish(Err(ApiError::InternalServerError)) && f1.phase is Finished
            && f1.verifier == f0.verifier && p1 == (if holds_turn(f0.phase) {
            released(p0)
        } else {
            p0
        }),
    }
}

impl AuthFlow {
    /// A run that has not started.
    pub fn new() -> (r: AuthFlow)
        ensures
            r.phase is Start,
            r.verifier@.len() == 0,
    {
        AuthFlow { phase: AuthPhase::Start, verifier: String::new() }
    }

    fn start_login(&mut self, proxy: &mut ApiProxy) -> (r: AuthAction)
        ensures
            login_started(*old(proxy), *final(proxy), *final(self), r),
    {
        proxy.unset_cb_auth_code();
        self.verifier = gen_random_state(STATE_LEN);
        let challenge = gen_challenge(self.verifier.as_str());
        let params = authorize_params(&proxy.config, challenge.as_str(), proxy.user_client_id);
        match url_with_params(AUTHORIZE_URL, &params) {
            Some(u) => {
                self.phase = AuthPhase::Opening;
                AuthAction::OpenBrowser(u)
            },
            None => {
                proxy.auth_in_flight = false;
                self.phase = AuthPhase::Finished;
                AuthAction::Finish(Err(ApiError::RequestError))
            },
        }
    }

    /// Advances the run by one event at time `now`, updating the session, and
    /// says what to do next.
    pub fn step(&mut self, proxy: &mut ApiProxy, event: AuthEvent, now: u64) -> (r: AuthAction)
        ensures
            auth_next(*old(self), *old(proxy), event, now, *final(self), *final(proxy), r),
    {
        match (&self.phase, event) {
            (AuthPhase::Start, AuthEvent::Begin) => {
                if proxy.auth_in_flight {
                    return AuthAction::AwaitTurn;
                }
                match proxy.validate_auth(now) {
                    AuthStep::Ready => {
                        self.phase = AuthPhase::Finished;
                        AuthAction::Finish(Ok(()))
                    },
                    AuthStep::Refresh(rt) => {
                        proxy.auth_in_flight = true;
                        self.phase = AuthPhase::Refreshing;
                        AuthAction::PostTokenForm(
                            refresh_form(rt.as_str(), proxy.config.application_id.as_str()),
                        )
                    },
                    AuthStep::Login => {
                        proxy.auth_in_flight = true;
                        self.start_login(proxy)
                    },
                }
            },
            (AuthPhase::Refreshing, AuthEvent::TokenReplied(reply)) => {
                match proxy.finish_refresh(reply, now) {
                    Ok(()) => {
                        proxy.auth_in_flight = false;
                        self.phase = AuthPhase::Finished;
                        AuthAction::Finish(Ok(()))
                    },
                    Err(_) => self.start_login(proxy),
                }
            },
            (AuthPhase::Opening, AuthEvent::BrowserOpened(opened)) => {
                if opened {
                    self.phase = AuthPhase::AwaitingCode;
                    AuthAction::AwaitCode
                } else {
                    proxy.auth_in_flight = false;
                    self.phase = AuthPhase::Finished;
                    AuthAction::Finish(Err(ApiError::BrowserError))
                }
            },
            (AuthPhase::AwaitingCode, AuthEvent::CodeSignalled) => {
                match proxy.take_cb_auth_code() {
                    Some(code) => {
                        self.phase = AuthPhase::Exchanging;
                        AuthAction::PostTokenForm(
                            exchange_form(
                                code.as_str(),
                                proxy.config.callback_url.as_str(),
                                self.verifier.as_str(),
                                proxy.config.application_id.as_str(),
                            ),
                        )
                    },
                    None => AuthAction::AwaitCode,
                }
            },
            (AuthPhase::Exchanging, AuthEvent::TokenReplied(reply)) => {
                let res = proxy.finish_login(reply, now);
                proxy.auth_in_flight = false;
                self.phase = AuthPhase::Finished;
                AuthAction::Finish(res)
            },
            _ => {
                let holds = match self.phase {
                    AuthPhase::Refreshing | AuthPhase::Opening | AuthPhase::AwaitingCode
                    | AuthPhase::Exchanging => true,
                    _ => false,
                };
                if holds {
                    proxy.auth_in_flight = false;
                }
                self.phase = AuthPhase::Finished;
                AuthAction::Finish(Err(ApiError::InternalServerError))
            },
        }
    }
}

/// While one run of a session holds its turn, any other run that begins on
/// that session waits: it sends no token request and opens no browser, and
/// leaves the session as it was.
pub proof fn lemma_one_run_at_a_time(f0: AuthFlow, p0: ApiProxy, now: u64, f1: AuthFlow, p1: ApiProxy, a: AuthAction)
    requires
        f0.phase is Start,
        p0.auth_in_flight,
        auth_next(f0, p0, AuthEvent::Begin, now, f1, p1, a),
    ensures
        a == AuthAction::AwaitTurn,
        p1 == p0,
        f1 == f0,
{
}

/// A run that begins when the session holds an unexpired token, and no other
/// run holds the turn, finishes at once: no refresh, no login, no network call.
pub proof fn lemma_fresh_token_finishes_at_once(f0: AuthFlow, p0: ApiProxy, now: u64, f1: AuthFlow, p1: ApiProxy, a: AuthAction)
    requires
        f0.phase is Start,
        !p0.auth_in_flight,
        crate::proxy::token_fresh(p0.auth_info, now),
        auth_next(f0, p0, AuthEvent::Begin, now, f1, p1, a),
    ensures
        a == AuthAction::Finish(Ok(())),
        p1 == p0,
{
}

/// Once a refresh has succeeded and given the turn back, a run that begins
/// before the new token expires finishes at once: the waiting runs see the
/// refreshed token and none sends a second token request.
pub proof fn lemma_waiters_see_refreshed_token(
    f0: AuthFlow,
    p0: ApiProxy,
    reply: TokenReply,
    now: u64,
    f1: AuthFlow,
    p1: ApiProxy,
    a: AuthAction,
    g0: AuthFlow,
    later: u64,
    g1: AuthFlow,
    p2: ApiProxy,
    b: AuthAction,
)
    requires
        f0.phase is Refreshing,
        auth_next(f0, p0, AuthEvent::TokenReplied(reply), now, f1, p1, a),
        token_reply_error(reply, false) is None,
        g0.phase is Start,
        now <= later <= crate::proxy::expiry_at(now, reply->expires_in->0),
        auth_next(g0, p1, AuthEvent::Begin, later, g1, p2, b),
    ensures
        a == AuthAction::Finish(Ok(())),
        !p1.auth_in_flight,
        b == AuthAction::Finish(Ok(())),
        p2 == p1,
        p1.auth_info.access_token == granted_info(p0.auth_info, reply, now).access_token,
{
}

/// The token exchange of a login sends the very verifier whose challenge went
/// into the login URL: the steps between keep it.
pub proof fn lemma_exchange_sends_login_verifier(
    f0: AuthFlow,
    p0: ApiProxy,
    now: u64,
    f1: AuthFlow,
    p1: ApiProxy,
    a1: AuthAction,
    f2: AuthFlow,
    p2: ApiProxy,
    a2: AuthAction,
    c: String,
)
    requires
        f0.phase is Opening,
        auth_next(f0, p0, AuthEvent::BrowserOpened(true), now, f1, p1, a1),
        p1.auth_info.cb_auth_code == Some(c),
        auth_next(f1, p1, AuthEvent::CodeSignalled, now, f2, p2, a2),
    ensures
        f2.verifier == f0.verifier,
        posts_form(
            a2,
            exchange_form_spec(
                c@,
                p0.config.callback_url@,
                f0.verifier@,
                p0.config.application_id@,
            ),
        ),
{
}

} // verus!
