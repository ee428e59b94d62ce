use spt::auth::{AuthAction, AuthEvent, AuthFlow, AuthPhase};
use spt::errors::ApiError;
use spt::forward::{ForwardAction, ForwardCall, ForwardEvent, ForwardPhase, ForwardReply};
use spt::proxy::{AccessToken, ApiProxy, AuthStep, ProxyConfig, TokenReply};
use spt::registry::{check_inactive, SessionRegistry};

fn config() -> ProxyConfig {
    ProxyConfig {
        application_id: "app".to_string(),
        scope: "user-read-playback-state".to_string(),
        base_url: "https://api.example.com/v1".to_string(),
        callback_url: "http://127.0.0.1:3030/auth/cb".to_string(),
    }
}

fn session_with_token(expires_at: u64, refresh: Option<&str>) -> ApiProxy {
    let mut p = ApiProxy::new(1, config(), 0);
    p.auth_info.access_token = Some(AccessToken { token: "tok".to_string(), expires_at });
    p.auth_info.refresh_token = refresh.map(|s| s.to_string());
    p
}

fn grant(access: &str, expires_in: u64, refresh: Option<&str>) -> TokenReply {
    TokenReply::Fields {
        access_token: Some(access.to_string()),
        expires_in: Some(expires_in),
        refresh_token: refresh.map(|s| s.to_string()),
    }
}

fn is_form(a: &AuthAction, expected: &[(&str, &str)]) -> bool {
    match a {
        AuthAction::PostTokenForm(v) => {
            v.len() == expected.len()
                && v.iter().zip(expected).all(|((k, x), (ek, ex))| k == ek && x == ex)
        }
        _ => false,
    }
}

#[test]
fn sequential_inits_give_increasing_ids() {
    let mut reg = SessionRegistry::new();
    let a = reg.create(config(), 100).unwrap();
    let b = reg.create(config(), 100).unwrap();
    assert_eq!(a, 1);
    assert_eq!(b, 2);
    assert!(a < b);
    assert_eq!(reg.session(b).unwrap().user_client_id, 2);
}

#[test]
fn id_counter_overflow_fails() {
    let mut reg = SessionRegistry::new();
    reg.next_client_id = u64::MAX;
    assert_eq!(reg.create(config(), 0), None);
}

#[test]
fn unknown_session_is_refused() {
    let mut reg = SessionRegistry::new();
    reg.create(config(), 0).unwrap();
    assert_eq!(reg.resolve_client(Some(99)), None);
    assert_eq!(reg.resolve_client(Some(0)), None);
    assert_eq!(reg.resolve_client(None), None);
    assert_eq!(reg.resolve_client(Some(1)), Some(1));
    let mut call = ForwardCall::new();
    assert!(reg.step_forward(99, &mut call, ForwardEvent::Begin, 0).is_none());
    assert!(matches!(call.phase, ForwardPhase::Start));
}

#[test]
fn callback_reaches_only_its_session() {
    let mut reg = SessionRegistry::new();
    for _ in 0..8 {
        reg.create(config(), 0).unwrap();
    }
    assert!(reg.auth_callback(Some("7"), Some("the-code".to_string())));
    assert_eq!(reg.session(7).unwrap().auth_info.cb_auth_code.as_deref(), Some("the-code"));
    for id in 1..=8u64 {
        if id != 7 {
            assert!(reg.session(id).unwrap().auth_info.cb_auth_code.is_none());
        }
    }
    assert!(!reg.auth_callback(Some("9"), Some("x".to_string())));
    assert!(!reg.auth_callback(Some("seven"), Some("x".to_string())));
    assert!(!reg.auth_callback(None, Some("x".to_string())));
    assert!(!reg.auth_callback(Some("3"), None));
    assert!(reg.session(3).unwrap().auth_info.cb_auth_code.is_none());
}

#[test]
fn waiting_login_wakes_only_with_its_own_code() {
    let mut reg = SessionRegistry::new();
    for _ in 0..8 {
        reg.create(config(), 0).unwrap();
    }
    let mut flow3 = AuthFlow::new();
    let mut flow7 = AuthFlow::new();
    for (id, flow) in [(3u64, &mut flow3), (7u64, &mut flow7)] {
        let a = reg.step_auth(id, flow, AuthEvent::Begin, 0).unwrap();
        assert!(matches!(a, AuthAction::OpenBrowser(_)));
        let a = reg.step_auth(id, flow, AuthEvent::BrowserOpened(true), 0).unwrap();
        assert!(matches!(a, AuthAction::AwaitCode));
    }
    assert!(reg.auth_callback(Some("7"), Some("c7".to_string())));
    let a3 = reg.step_auth(3, &mut flow3, AuthEvent::CodeSignalled, 0).unwrap();
    assert!(matches!(a3, AuthAction::AwaitCode));
    let a7 = reg.step_auth(7, &mut flow7, AuthEvent::CodeSignalled, 0).unwrap();
    assert!(matches!(a7, AuthAction::PostTokenForm(_)));
}

#[test]
fn fresh_token_needs_no_network() {
    let p = session_with_token(1000, Some("rt"));
    assert!(matches!(p.validate_auth(999), AuthStep::Ready));
    assert!(matches!(p.validate_auth(1000), AuthStep::Ready));
    let mut p = p;
    let mut flow = AuthFlow::new();
    let a = flow.step(&mut p, AuthEvent::Begin, 500);
    assert!(matches!(a, AuthAction::Finish(Ok(()))));
    assert!(matches!(flow.phase, AuthPhase::Finished));
}

#[test]
fn expired_token_is_refreshed() {
    let mut p = session_with_token(1000, Some("rt"));
    match p.validate_auth(1001) {
        AuthStep::Refresh(rt) => assert_eq!(rt, "rt"),
        _ => panic!("expected a refresh"),
    }
    let mut flow = AuthFlow::new();
    let a = flow.step(&mut p, AuthEvent::Begin, 1001);
    assert!(is_form(&a, &[("grant_type", "refresh_token"), ("refresh_token", "rt"), ("client_id", "app")]));
    let a = flow.step(&mut p, AuthEvent::TokenReplied(grant("new", 3600, None)), 1001);
    assert!(matches!(a, AuthAction::Finish(Ok(()))));
    let t = p.auth_info.access_token.as_ref().unwrap();
    assert_eq!(t.token, "new");
    assert_eq!(t.expires_at, 1001 + 3_600_000);
    assert_eq!(p.auth_info.refresh_token.as_deref(), Some("rt"));
    // a second caller after the refresh finds the new token and refreshes nothing
    let mut second = AuthFlow::new();
    assert!(matches!(second.step(&mut p, AuthEvent::Begin, 1002), AuthAction::Finish(Ok(()))));
}

#[test]
fn refresh_keeps_a_new_refresh_token() {
    let mut p = session_with_token(0, Some("old"));
    assert!(p.finish_refresh(grant("a", 10, Some("newer")), 5).is_ok());
    assert_eq!(p.auth_info.refresh_token.as_deref(), Some("newer"));
}

#[test]
fn failed_refresh_falls_through_to_login() {
    let mut p = session_with_token(0, Some("rt"));
    p.user_client_id = 7;
    let mut flow = AuthFlow::new();
    flow.step(&mut p, AuthEvent::Begin, 10);
    let a = flow.step(&mut p, AuthEvent::TokenReplied(TokenReply::Rejected(400)), 10);
    assert!(p.auth_info.access_token.is_none());
    assert!(p.auth_info.refresh_token.is_none());
    match a {
        AuthAction::OpenBrowser(url) => {
            assert!(url.starts_with("https://accounts.spotify.com/authorize?"));
            assert!(url.contains("response_type=code"));
            assert!(url.contains("client_id=app"));
            assert!(url.contains("code_challenge_method=S256"));
            assert!(url.contains("state=7"));
        }
        _ => panic!("expected the browser login"),
    }
    assert_eq!(flow.verifier.len(), 64);
}

#[test]
fn login_exchanges_the_code() {
    let mut p = ApiProxy::new(2, config(), 0);
    p.auth_info.cb_auth_code = Some("stale".to_string());
    let mut flow = AuthFlow::new();
    let a = flow.step(&mut p, AuthEvent::Begin, 0);
    assert!(matches!(a, AuthAction::OpenBrowser(_)));
    assert!(p.auth_info.cb_auth_code.is_none());
    let a = flow.step(&mut p, AuthEvent::BrowserOpened(true), 0);
    assert!(matches!(a, AuthAction::AwaitCode));
    let a = flow.step(&mut p, AuthEvent::CodeSignalled, 0);
    assert!(matches!(a, AuthAction::AwaitCode));
    p.set_cb_auth_code("code1".to_string());
    let a = flow.step(&mut p, AuthEvent::CodeSignalled, 0);
    let verifier = flow.verifier.clone();
    assert!(is_form(
        &a,
        &[
            ("grant_type", "authorization_code"),
            ("code", "code1"),
            ("redirect_uri", "http://127.0.0.1:3030/auth/cb"),
            ("code_verifier", verifier.as_str()),
            ("client_id", "app"),
        ]
    ));
    let a = flow.step(&mut p, AuthEvent::TokenReplied(grant("at", 60, Some("rt"))), 100);
    assert!(matches!(a, AuthAction::Finish(Ok(()))));
    assert_eq!(p.auth_info.access_token.as_ref().unwrap().expires_at, 60_100);
    assert_eq!(p.auth_info.refresh_token.as_deref(), Some("rt"));
}

#[test]
fn login_errors() {
    let mut p = ApiProxy::new(2, config(), 0);
    let mut flow = AuthFlow::new();
    flow.step(&mut p, AuthEvent::Begin, 0);
    let a = flow.step(&mut p, AuthEvent::BrowserOpened(false), 0);
    assert!(matches!(a, AuthAction::Finish(Err(ApiError::BrowserError))));

    let mut p = ApiProxy::new(2, config(), 0);
    let mut flow = AuthFlow::new();
    flow.step(&mut p, AuthEvent::Begin, 0);
    flow.step(&mut p, AuthEvent::BrowserOpened(true), 0);
    p.set_cb_auth_code("c".to_string());
    flow.step(&mut p, AuthEvent::CodeSignalled, 0);
    let no_refresh = grant("at", 60, None);
    let a = flow.step(&mut p, AuthEvent::TokenReplied(no_refresh), 0);
    assert!(matches!(a, AuthAction::Finish(Err(ApiError::ResponseDataError))));
    assert!(p.auth_info.access_token.is_none());

    let mut q = ApiProxy::new(3, config(), 0);
    assert_eq!(q.finish_login(TokenReply::Unreachable, 0), Err(ApiError::RequestError));
    assert_eq!(q.finish_login(TokenReply::Unreadable, 0), Err(ApiError::ResponseParseError));
    assert_eq!(q.finish_login(TokenReply::Rejected(503), 0), Err(ApiError::ResponseError503));

    let mut flow = AuthFlow::new();
    let a = flow.step(&mut q, AuthEvent::CodeSignalled, 0);
    assert!(matches!(a, AuthAction::Finish(Err(ApiError::InternalServerError))));
}

fn forward_to_send(p: &mut ApiProxy, now: u64) -> ForwardCall {
    let mut call = ForwardCall::new();
    assert!(matches!(call.step(p, ForwardEvent::Begin, now), ForwardAction::EnsureValid));
    match call.step(p, ForwardEvent::Authorized(Ok(())), now) {
        ForwardAction::Send(t) => assert_eq!(t, "tok"),
        _ => panic!("expected the upstream call"),
    }
    call
}

#[test]
fn ok_and_no_content_answers() {
    let mut p = session_with_token(1000, None);
    let mut call = forward_to_send(&mut p, 0);
    let a = call.step(&mut p, ForwardEvent::Answered { status: 200, retry_after: None }, 0);
    assert!(matches!(a, ForwardAction::Reply(ForwardReply::Body)));
    let mut call = forward_to_send(&mut p, 0);
    let a = call.step(&mut p, ForwardEvent::Answered { status: 204, retry_after: None }, 0);
    assert!(matches!(a, ForwardAction::Reply(ForwardReply::NoContent)));
    let mut call = forward_to_send(&mut p, 0);
    let a = call.step(&mut p, ForwardEvent::Answered { status: 404, retry_after: None }, 0);
    assert!(matches!(a, ForwardAction::Reply(ForwardReply::Failed(ApiError::ResponseError404))));
    let mut call = forward_to_send(&mut p, 0);
    let a = call.step(&mut p, ForwardEvent::Unreachable, 0);
    assert!(matches!(a, ForwardAction::Reply(ForwardReply::Failed(ApiError::RequestError))));
}

#[test]
fn unauthorized_clears_token_and_revalidates_once() {
    let mut p = session_with_token(1000, Some("rt"));
    let mut call = forward_to_send(&mut p, 0);
    let a = call.step(&mut p, ForwardEvent::Answered { status: 401, retry_after: None }, 0);
    assert!(matches!(a, ForwardAction::EnsureValid));
    assert!(p.auth_info.access_token.is_none());
    assert_eq!(p.auth_info.refresh_token.as_deref(), Some("rt"));
    let a = call.step(&mut p, ForwardEvent::Authorized(Ok(())), 0);
    assert!(matches!(a, ForwardAction::Reply(ForwardReply::Failed(ApiError::InvalidAccessToken))));
    assert!(matches!(call.phase, ForwardPhase::Finished));
    let a = call.step(&mut p, ForwardEvent::Authorized(Ok(())), 0);
    assert!(matches!(a, ForwardAction::Reply(ForwardReply::Failed(ApiError::InternalServerError))));
}

#[test]
fn rate_limit_delays_only_that_session() {
    let mut p = session_with_token(10_000, None);
    let mut call = forward_to_send(&mut p, 100);
    let r = call.step(&mut p, ForwardEvent::Answered { status: 429, retry_after: Some(10) }, 100);
    assert!(matches!(r, ForwardAction::Reply(ForwardReply::Failed(ApiError::ResponseError429))));
    assert_eq!(p.backoff, 10_100);
    let mut next = ForwardCall::new();
    next.step(&mut p, ForwardEvent::Begin, 101);
    match next.step(&mut p, ForwardEvent::Authorized(Ok(())), 101) {
        ForwardAction::Sleep(s) => assert_eq!(s, 9_999),
        _ => panic!("expected a wait"),
    }
    assert!(matches!(next.step(&mut p, ForwardEvent::Waited, 10_099), ForwardAction::Sleep(1)));
    assert!(matches!(next.step(&mut p, ForwardEvent::Waited, 10_100), ForwardAction::Send(_)));
    let q = session_with_token(10_000, None);
    assert_eq!(q.execute_backoff(101), 0);
}

#[test]
fn rate_limit_through_registry_leaves_others_alone() {
    let mut reg = SessionRegistry::new();
    let a = reg.create(config(), 0).unwrap();
    let b = reg.create(config(), 0).unwrap();
    let mut call = ForwardCall::new();
    call.phase = ForwardPhase::Sending;
    let r = reg.step_forward(a, &mut call, ForwardEvent::Answered { status: 429, retry_after: None }, 50);
    assert!(matches!(r, Some(ForwardAction::Reply(ForwardReply::Failed(ApiError::ResponseError429)))));
    assert_eq!(reg.session(a).unwrap().backoff, 5_050);
    assert_eq!(reg.session(b).unwrap().backoff, 0);
    assert_eq!(reg.session(a).unwrap().execute_backoff(50), 5_000);
    assert_eq!(reg.session(b).unwrap().execute_backoff(50), 0);
}

#[test]
fn rate_limit_saturates() {
    let mut p = ApiProxy::new(1, config(), 0);
    p.record_rate_limit(u64::MAX - 1, Some(10));
    assert_eq!(p.backoff, u64::MAX);
}

#[test]
fn missing_token_after_validation() {
    let mut p = ApiProxy::new(1, config(), 0);
    let mut call = ForwardCall::new();
    call.step(&mut p, ForwardEvent::Begin, 0);
    let a = call.step(&mut p, ForwardEvent::Authorized(Ok(())), 0);
    assert!(matches!(a, ForwardAction::Reply(ForwardReply::Failed(ApiError::NoAccessToken))));
    let mut call = ForwardCall::new();
    call.step(&mut p, ForwardEvent::Begin, 0);
    let a = call.step(&mut p, ForwardEvent::Authorized(Err(ApiError::BrowserError)), 0);
    assert!(matches!(a, ForwardAction::Reply(ForwardReply::Failed(ApiError::BrowserError))));
}

#[test]
fn inactivity_window() {
    assert!(check_inactive(100, 160, 60));
    assert!(!check_inactive(100, 159, 60));
    assert!(!check_inactive(200, 100, 60));
}

#[test]
fn one_refresh_at_a_time_per_session() {
    let mut p = session_with_token(1000, Some("rt"));
    let mut first = AuthFlow::new();
    let mut second = AuthFlow::new();
    assert!(matches!(first.step(&mut p, AuthEvent::Begin, 2000), AuthAction::PostTokenForm(_)));
    assert!(p.auth_in_flight);
    assert!(matches!(second.step(&mut p, AuthEvent::Begin, 2000), AuthAction::AwaitTurn));
    assert!(matches!(second.phase, AuthPhase::Start));
    let a = first.step(&mut p, AuthEvent::TokenReplied(grant("new", 60, None)), 2001);
    assert!(matches!(a, AuthAction::Finish(Ok(()))));
    assert!(!p.auth_in_flight);
    assert!(matches!(second.step(&mut p, AuthEvent::Begin, 2002), AuthAction::Finish(Ok(()))));
    assert_eq!(p.auth_info.access_token.as_ref().unwrap().token, "new");
}

#[test]
fn abandoned_run_gives_the_turn_back() {
    let mut p = ApiProxy::new(4, config(), 0);
    let mut flow = AuthFlow::new();
    assert!(matches!(flow.step(&mut p, AuthEvent::Begin, 0), AuthAction::OpenBrowser(_)));
    flow.step(&mut p, AuthEvent::BrowserOpened(true), 0);
    assert!(p.auth_in_flight);
    let a = flow.step(&mut p, AuthEvent::Abandon, 0);
    assert!(matches!(a, AuthAction::Finish(Err(ApiError::InternalServerError))));
    assert!(!p.auth_in_flight);
}

#[test]
fn verifier_is_kept_until_the_exchange() {
    let mut p = ApiProxy::new(5, config(), 0);
    let mut flow = AuthFlow::new();
    let url = match flow.step(&mut p, AuthEvent::Begin, 0) {
        AuthAction::OpenBrowser(u) => u,
        _ => panic!("expected the browser login"),
    };
    let v = flow.verifier.clone();
    let challenge = spt::pkce::gen_challenge(&v);
    assert!(url.contains(&format!("code_challenge={}", challenge)));
    flow.step(&mut p, AuthEvent::BrowserOpened(true), 0);
    flow.step(&mut p, AuthEvent::CodeSignalled, 0);
    assert_eq!(flow.verifier, v);
    p.set_cb_auth_code("k".to_string());
    let a = flow.step(&mut p, AuthEvent::CodeSignalled, 0);
    assert!(is_form(&a, &[
        ("grant_type", "authorization_code"),
        ("code", "k"),
        ("redirect_uri", "http://127.0.0.1:3030/auth/cb"),
        ("code_verifier", v.as_str()),
        ("client_id", "app"),
    ]));
}
