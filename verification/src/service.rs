//! Decisions of the HTTP layer: which token a request presents, the request
//! rate window, and what a session reports of its caller.

use vstd::prelude::*;

use crate::auth::{bearer, bearer_token, AccessControl, AuthDecision, Principal, Role};
use crate::text::{trim, trimmed};

verus! {

/// The token a request presents: the bearer token of its `Authorization`
/// header when there is one, else its `x-api-key` header, trimmed, when that
/// is not empty. Each header is given as its text, `None` when it is absent
/// or not visible ASCII.
pub open spec fn presented(authorization: Option<Seq<char>>, api_key: Option<Seq<char>>) -> Option<Seq<char>> {
    match authorization {
        Some(h) if bearer_token(h) is Some => bearer_token(h),
        _ => match api_key {
            Some(k) if trimmed(k).len() > 0 => Some(trimmed(k)),
            _ => None,
        },
    }
}

pub fn presented_token(authorization: Option<&str>, api_key: Option<&str>) -> (r: Option<String>)
    ensures
        match presented(
            match authorization {
                Some(h) => Some(h@),
                None => None,
            },
            match api_key {
                Some(k) => Some(k@),
                None => None,
            },
        ) {
            None => r is None,
            Some(t) => (r matches Some(s) && s@ == t),
        },
{
    match bearer(authorization) {
        Some(t) => return Some(t.to_owned()),
        None => {},
    }
    match api_key {
        Some(k) => {
            let t = trim(k);
            if t.unicode_len() > 0 {
                Some(t.to_owned())
            } else {
                None
            }
        },
        None => None,
    }
}

/// The count of API requests in the current minute.
#[derive(Debug)]
pub struct RateState {
    pub window_minute: i64,
    pub count: u32,
}

impl RateState {
    /// Count a request made in `minute`. A new minute starts a new window.
    /// Returns true when the request is over `limit_per_minute`.
    pub fn register(&mut self, minute: i64, limit_per_minute: u32) -> (over: bool)
        requires
            old(self).window_minute != minute || old(self).count < u32::MAX,
        ensures
            final(self).window_minute == minute,
            final(self).count == if old(self).window_minute == minute {
                old(self).count + 1
            } else {
                1
            },
            over == (final(self).count > limit_per_minute),
    {
        if self.window_minute != minute {
            self.window_minute = minute;
            self.count = 0;
        }
        self.count = self.count + 1;
        self.count > limit_per_minute
    }
}

/// What a session reports of its caller.
#[derive(Debug)]
pub struct SessionInfo {
    /// Access control is enforced.
    pub auth_required: bool,
    /// The caller's role, when the token identifies a principal.
    pub role: Option<Role>,
    /// The caller's name, when the token identifies a principal.
    pub principal: Option<String>,
}

/// The session of a caller presenting `token`: whether access control is
/// enforced and, when the token identifies a principal with at least read
/// access, its role and name.
pub fn session_info(access: &AccessControl, token: Option<&str>) -> (s: SessionInfo)
    ensures
        s.auth_required == (access.entries().len() > 0),
        (s.role is Some) == (s.principal is Some),
        s.principal is Some <==> (access.entries().len() > 0 && (token matches Some(t) && access.principal_for(
            t@,
        ) is Some)),
        s.principal matches Some(n) ==> (token matches Some(t) && access.principal_for(t@) matches Some(p) && n
            == p.display_name && s.role == Some(p.role)),
{
    let (role, principal) = match access.decide(token, Role::Viewer) {
        AuthDecision::Allow(Some(p)) => (Some(p.role), Some(p.display_name)),
        _ => (None, None),
    };
    SessionInfo { auth_required: access.enforced(), role, principal }
}

} // verus!
