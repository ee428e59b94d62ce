use crate::auth::{auth_next, AuthAction, AuthEvent, AuthFlow};
use crate::forward::{forward_next, ForwardAction, ForwardCall, ForwardEvent};
use crate::proxy::{ApiProxy, AuthInfo, ProxyConfig};
use crate::text::{parse_u64, parse_u64_spec};
use std::collections::HashMap;
use vstd::prelude::*;

verus! {

broadcast use vstd::std_specs::hash::group_hash_axioms;

/// All sessions of the proxy, by identifier, and the next identifier to give.
#[derive(Debug)]
pub struct SessionRegistry {
    pub next_client_id: u64,
    pub api_proxies: HashMap<u64, ApiProxy>,
}


/// What opening a session does to the registry: the next identifier is handed
/// out and a new session stored under it, or, once the identifiers are used
/// up, nothing changes and none is handed out.
pub open spec fn created(before: SessionRegistry, after: SessionRegistry, r: Option<u64>) -> bool {
    if before.next_client_id == u64::MAX {
        r is None && after.next_client_id == before.next_client_id && after.sessions()
            == before.sessions()
    } else {
        &&& r == Some(before.next_client_id)
        &&& after.next_client_id == before.next_client_id + 1
        &&& !before.sessions().contains_key(before.next_client_id)
        &&& after.sessions() == before.sessions().insert(
            before.next_client_id,
            after.sessions()[before.next_client_id],
        )
    }
}

/// What the browser callback does to the registry: with a decimal session id
/// in `state` naming an existing session, and a code, that session's pending
/// code becomes the code and nothing else changes; otherwise nothing changes.
pub open spec fn code_delivered(
    before: SessionRegistry,
    after: SessionRegistry,
    state: Option<Seq<char>>,
    code: Option<String>,
    r: bool,
) -> bool {
    &&& after.next_client_id == before.next_client_id
    &&& r == (state is Some && parse_u64_spec(state->0) is Some && before.sessions().contains_key(
        parse_u64_spec(state->0)->0,
    ) && code is Some)
    &&& !r ==> after.sessions() == before.sessions()
    &&& r ==> {
        let id = parse_u64_spec(state->0)->0;
        let p = before.sessions()[id];
        after.sessions() == before.sessions().insert(
            id,
            ApiProxy { auth_info: AuthInfo { cb_auth_code: code, ..p.auth_info }, ..p },
        )
    }
}

impl SessionRegistry {
    /// The sessions, by identifier.
    pub open spec fn sessions(&self) -> Map<u64, ApiProxy> {
        self.api_proxies@
    }

    /// Identifiers start at 1; every session was given an identifier below the
    /// next one, and knows its own identifier.
    pub open spec fn wf(&self) -> bool {
        &&& self.next_client_id >= 1
        &&& forall|k: u64| #[trigger]
            self.sessions().contains_key(k) ==> 1 <= k < self.next_client_id
                && self.sessions()[k].user_client_id == k
    }

    /// A registry with no sessions, whose first identifier is 1.
    pub fn new() -> (r: SessionRegistry)
        ensures
            r.wf(),
            r.next_client_id == 1,
            r.sessions() == Map::<u64, ApiProxy>::empty(),
    {
        SessionRegistry { next_client_id: 1, api_proxies: HashMap::new() }
    }

    /// Opens a session with empty credentials under the next identifier. Fails
    /// only when the identifiers are used up.
    pub fn create(&mut self, config: ProxyConfig, now: u64) -> (r: Option<u64>)
        requires
            old(self).wf(),
        ensures
            final(self).wf(),
            created(*old(self), *final(self), r),
            r is Some ==> final(self).sessions()[r->0] == (ApiProxy {
                config,
                backoff: now,
                user_client_id: r->0,
                auth_info: AuthInfo { access_token: None, refresh_token: None, cb_auth_code: None },
                auth_in_flight: false,
            }),
    {
        if self.next_client_id == u64::MAX {
            return None;
        }
        let id = self.next_client_id;
        self.next_client_id = id + 1;
        let proxy = ApiProxy::new(id, config, now);
        self.api_proxies.insert(id, proxy);
        Some(id)
    }

    /// Whether a session with this identifier exists.
    pub fn contains(&self, id: u64) -> (r: bool)
        ensures
            r == self.sessions().contains_key(id),
    {
        self.api_proxies.contains_key(&id)
    }

    /// The session with this identifier, if any.
    pub fn session(&self, id: u64) -> (r: Option<&ApiProxy>)
        ensures
            match r {
                Some(p) => self.sessions().contains_key(id) && *p == self.sessions()[id],
                None => !self.sessions().contains_key(id),
            },
    {
        self.api_proxies.get(&id)
    }

    /// The session that a request names, if it names one that exists: an
    /// unknown or missing identifier is refused before any other work.
    pub fn resolve_client(&self, client_id: Option<u64>) -> (r: Option<u64>)
        ensures
            match client_id {
                Some(id) => if self.sessions().contains_key(id) {
                    r == Some(id)
                } else {
                    r is None
                },
                None => r is None,
            },
    {
        match client_id {
            Some(id) => if self.contains(id) {
                Some(id)
            } else {
                None
            },
            None => None,
        }
    }

    /// Advances an authentication run of session `id`, which must exist;
    /// no other session changes.
    pub fn step_auth(&mut self, id: u64, flow: &mut AuthFlow, event: AuthEvent, now: u64) -> (r:
        Option<AuthAction>)
        requires
            old(self).wf(),
        ensures
            final(self).wf(),
            final(self).next_client_id == old(self).next_client_id,
            final(self).sessions().dom() == old(self).sessions().dom(),
            forall|k: u64| #[trigger]
                final(self).sessions().contains_key(k) && k != id ==> final(self).sessions()[k]
                    == old(self).sessions()[k],
            !old(self).sessions().contains_key(id) ==> r is None && final(self).sessions() == old(
                self,
            ).sessions() && *final(flow) == *old(flow),
            old(self).sessions().contains_key(id) ==> r is Some && auth_next(
                *old(flow),
                old(self).sessions()[id],
                event,
                now,
                *final(flow),
                final(self).sessions()[id],
                r->0,
            ),
    {
        match self.api_proxies.remove(&id) {
            Some(mut proxy) => {
                let a = flow.step(&mut proxy, event, now);
                self.api_proxies.insert(id, proxy);
                assert(self.sessions() =~= old(self).sessions().insert(id, proxy));
                Some(a)
            },
            None => None,
        }
    }

    /// Advances a forwarded call on session `id`, which must exist; no other
    /// session changes.
    pub fn step_forward(&mut self, id: u64, call: &mut ForwardCall, event: ForwardEvent, now: u64) -> (r:
        Option<ForwardAction>)
        requires
            old(self).wf(),
        ensures
            final(self).wf(),
            final(self).next_client_id == old(self).next_client_id,
            final(self).sessions().dom() == old(self).sessions().dom(),
            forall|k: u64| #[trigger]
                final(self).sessions().contains_key(k) && k != id ==> final(self).sessions()[k]
                    == old(self).sessions()[k],
            !old(self).sessions().contains_key(id) ==> r is None && final(self).sessions() == old(
                self,
            ).sessions() && *final(call) == *old(call),
            old(self).sessions().contains_key(id) ==> {
                let next = forward_next(old(call).phase, old(self).sessions()[id], event, now);
                &&& r == Some(next.2)
                &&& final(call).phase == next.0
                &&& final(self).sessions()[id] == next.1
            },
    {
        match self.api_proxies.remove(&id) {
            Some(mut proxy) => {
                let a = call.step(&mut proxy, event, now);
                self.api_proxies.insert(id, proxy);
                assert(self.sessions() =~= old(self).sessions().insert(id, proxy));
                Some(a)
            },
            None => None,
        }
    }

    /// Hands an authorization code from the browser callback to the session
    /// that `state` names. Answers whether it was delivered: the state must be
    /// a session identifier in decimal, the session must exist and a code must
    /// be given. Only that session changes, and only its pending code.
    pub fn auth_callback(&mut self, state: Option<&str>, code: Option<String>) -> (r: bool)
        requires
            old(self).wf(),
        ensures
            final(self).wf(),
            code_delivered(
                *old(self),
                *final(self),
                match state {
                    Some(t) => Some(t@),
                    None => None,
                },
                code,
                r,
            ),
    {
        let id = match state {
            Some(s) => match parse_u64(s) {
                Some(id) => id,
                None => return false,
            },
            None => return false,
        };
        let code = match code {
            Some(c) => c,
            None => return false,
        };
        match self.api_proxies.remove(&id) {
            Some(mut proxy) => {
                proxy.set_cb_auth_code(code);
                self.api_proxies.insert(id, proxy);
                assert(self.sessions() =~= old(self).sessions().insert(id, proxy));
                true
            },
            None => {
                assert(self.sessions() =~= old(self).sessions());
                false
            },
        }
    }
}

/// Whether the proxy has been idle for the whole inactivity window: the time
/// since the last request is at least `timeout` (all in one unit of time).
pub fn check_inactive(last_request: u64, now: u64, timeout: u64) -> (r: bool)
    ensures
        r == (now >= last_request && now - last_request >= timeout),
{
    now >= last_request && now - last_request >= timeout
}

/// Two sessions opened one after the other get distinct, increasing
/// identifiers.
pub proof fn lemma_ids_increase(
    r0: SessionRegistry,
    r1: SessionRegistry,
    r2: SessionRegistry,
    a: u64,
    b: u64,
)
    requires
        created(r0, r1, Some(a)),
        created(r1, r2, Some(b)),
    ensures
        a < b,
{
}

/// An identifier that was never handed out names no session, so a request
/// naming it is refused before any session work or upstream call.
pub proof fn lemma_unseen_client_refused(reg: SessionRegistry, id: u64)
    requires
        reg.wf(),
        id == 0 || id >= reg.next_client_id,
    ensures
        !reg.sessions().contains_key(id),
{
}

/// A code delivered by the callback reaches only the session that its state
/// names: every other session, its pending code included, is as it was.
pub proof fn lemma_callback_reaches_only_its_session(
    before: SessionRegistry,
    after: SessionRegistry,
    state: Option<Seq<char>>,
    code: Option<String>,
    r: bool,
    other: u64,
)
    requires
        code_delivered(before, after, state, code, r),
        before.sessions().contains_key(other),
        !(state is Some && parse_u64_spec(state->0) == Some(other)),
    ensures
        after.sessions().contains_key(other),
        after.sessions()[other] == before.sessions()[other],
{
}

} // verus!
