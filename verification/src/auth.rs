//! Token-based access control for the API surface.
//!
//! Each configured token maps to a named principal and a role. When no token
//! is configured the control plane runs in open development mode: this is only
//! safe on the loopback interface. As soon as one token is defined every `/api`
//! call except the health probe must present a valid token with a sufficient
//! role.

use vstd::prelude::*;

use vstd::utf8::encode_utf8;

use crate::text::{ends_with, framed, prefixed, has_prefix, has_suffix, starts_with, str_eq, trim, trimmed};

verus! {

/// Roles form a strict hierarchy: an operator may also score results and
/// read, the scoring role may also read, and a viewer may only read.
#[derive(Clone, Copy, Debug, PartialEq, Eq, Structural)]
pub enum Role {
    Viewer,
    Reviewer,
    Operator,
}

impl Role {
    /// The rank of a role in the hierarchy.
    pub open spec fn rank(self) -> u8 {
        match self {
            Role::Viewer => 1,
            Role::Reviewer => 2,
            Role::Operator => 3,
        }
    }

    fn level(self) -> (l: u8)
        ensures
            l == self.rank(),
    {
        match self {
            Role::Viewer => 1,
            Role::Reviewer => 2,
            Role::Operator => 3,
        }
    }

    /// True when a holder of this role may act where `required` is needed.
    pub fn allows(self, required: Role) -> (b: bool)
        ensures
            b == (self.rank() >= required.rank()),
    {
        self.level() >= required.level()
    }
}

pub struct Principal {
    pub display_name: String,
    pub role: Role,
}

impl Clone for Principal {
    fn clone(&self) -> (p: Self)
        ensures
            p == *self,
    {
        Principal { display_name: self.display_name.clone(), role: self.role }
    }
}

/// One configured token, as the access file lists it.
pub struct TokenEntry {
    pub token: String,
    pub display_name: String,
    pub role: Role,
}

/// The outcome of an authorization check.
pub enum AuthDecision {
    Allow(Option<Principal>),
    Unauthenticated,
    Forbidden,
}

/// Why a list of token entries was refused.
#[derive(Debug)]
pub enum AccessError {
    /// The trimmed token of the named principal is shorter than 16 bytes.
    TokenTooShort(String),
    /// The named principal repeats a token listed before it.
    DuplicateToken(String),
}

/// The least number of bytes of a trimmed access token.
pub const MIN_TOKEN_BYTES: usize = 16;

/// The text that explains a refused list of token entries.
pub open spec fn access_error_text(e: AccessError) -> Seq<char> {
    match e {
        AccessError::TokenTooShort(name) => "Access token for "@ + name@ + " must be at least 16 characters"@,
        AccessError::DuplicateToken(name) => "Duplicate access token for "@ + name@,
    }
}

impl AccessError {
    /// The explanation of the refusal.
    pub fn message(&self) -> (s: String)
        ensures
            s@ == access_error_text(*self),
    {
        match self {
            AccessError::TokenTooShort(name) => framed(
                "Access token for ",
                name.as_str(),
                " must be at least 16 characters",
            ),
            AccessError::DuplicateToken(name) => prefixed("Duplicate access token for ", name.as_str()),
        }
    }
}

/// The token of entry `i` is long enough once trimmed.
pub open spec fn token_long_enough(entries: Seq<TokenEntry>, i: int) -> bool {
    encode_utf8(trimmed(entries[i].token@)).len() >= MIN_TOKEN_BYTES
}

/// Entry `i` repeats the token of an earlier entry.
pub open spec fn token_repeated(entries: Seq<TokenEntry>, i: int) -> bool {
    exists|j: int| 0 <= j < i && #[trigger] entries[j].token@ == entries[i].token@
}

/// Entry `i` is acceptable given the entries before it.
pub open spec fn token_entry_ok(entries: Seq<TokenEntry>, i: int) -> bool {
    token_long_enough(entries, i) && !token_repeated(entries, i)
}

/// The error that entry `i` raises when it is the first unacceptable one.
pub open spec fn token_entry_error(entries: Seq<TokenEntry>, i: int) -> AccessError {
    if !token_long_enough(entries, i) {
        AccessError::TokenTooShort(entries[i].display_name)
    } else {
        AccessError::DuplicateToken(entries[i].display_name)
    }
}

pub struct AccessControl {
    tokens: Vec<(String, Principal)>,
}

impl AccessControl {
    /// The configured tokens, each with its principal.
    pub closed spec fn entries(&self) -> Seq<(Seq<char>, Principal)> {
        self.tokens@.map_values(|e: (String, Principal)| (e.0@, e.1))
    }

    /// No token is listed twice.
    pub open spec fn distinct_tokens(entries: Seq<(Seq<char>, Principal)>) -> bool {
        forall|i: int, j: int|
            0 <= i < entries.len() && 0 <= j < entries.len() && i != j ==> #[trigger] entries[i].0
                != #[trigger] entries[j].0
    }

    #[verifier::type_invariant]
    closed spec fn inv(&self) -> bool {
        Self::distinct_tokens(self.entries())
    }

    /// The principal that a token stands for, if it is configured.
    pub open spec fn principal_for(&self, token: Seq<char>) -> Option<Principal> {
        if exists|i: int| 0 <= i < self.entries().len() && #[trigger] self.entries()[i].0 == token {
            let i = choose|i: int| 0 <= i < self.entries().len() && #[trigger] self.entries()[i].0 == token;
            Some(self.entries()[i].1)
        } else {
            None
        }
    }

    /// The decision for a presented token and a required role: open mode
    /// allows everything; otherwise an unknown or absent token is
    /// unauthenticated, and a known one is allowed when its role suffices.
    pub open spec fn decision_for(&self, presented: Option<Seq<char>>, required: Role) -> AuthDecision {
        if self.entries().len() == 0 {
            AuthDecision::Allow(None)
        } else {
            match presented {
                None => AuthDecision::Unauthenticated,
                Some(t) => match self.principal_for(t) {
                    None => AuthDecision::Unauthenticated,
                    Some(p) => if p.role.rank() >= required.rank() {
                        AuthDecision::Allow(Some(p))
                    } else {
                        AuthDecision::Forbidden
                    },
                },
            }
        }
    }

    /// Build access control from the entries of the access file, in order. The
    /// first entry whose trimmed token is shorter than 16 bytes, or whose token
    /// an earlier entry already holds, is refused.
    #[verifier::loop_isolation(false)]
    pub fn from_entries(entries: Vec<TokenEntry>) -> (r: Result<AccessControl, AccessError>)
        ensures
            r is Ok <==> forall|i: int| 0 <= i < entries@.len() ==> token_entry_ok(entries@, i),
            r matches Ok(ac) ==> ac.entries() == entries@.map_values(
                |e: TokenEntry| (e.token@, Principal { display_name: e.display_name, role: e.role }),
            ),
            r matches Err(e) ==> exists|i: int|
                0 <= i < entries@.len() && !token_entry_ok(entries@, i) && (forall|k: int|
                    0 <= k < i ==> token_entry_ok(entries@, k)) && e == token_entry_error(entries@, i),
    {
        let ghost src = entries@;
        let mut tokens: Vec<(String, Principal)> = Vec::new();
        let mut i: usize = 0;
        let n = entries.len();
        let mut rest = entries;
        while i < n
            invariant
                n == src.len(),
                i <= n,
                rest@ == src.subrange(i as int, n as int),
                tokens@.len() == i,
                forall|k: int| 0 <= k < i ==> token_entry_ok(src, k),
                forall|k: int|
                    0 <= k < i ==> #[trigger] tokens@[k] == (
                        src[k].token,
                        Principal { display_name: src[k].display_name, role: src[k].role },
                    ),
            decreases n - i,
        {
            let entry = rest.remove(0);
            assert(entry == src[i as int]);
            let t = trim(entry.token.as_str());
            if t.as_bytes().len() < MIN_TOKEN_BYTES {
                assert(!token_entry_ok(src, i as int));
                return Err(AccessError::TokenTooShort(entry.display_name));
            }
            let mut j: usize = 0;
            while j < tokens.len()
                invariant
                    j <= tokens@.len() == i,
                    i < n,
                    n == src.len(),
                    token_long_enough(src, i as int),
                    entry == src[i as int],
                    forall|k: int|
                        0 <= k < i ==> #[trigger] tokens@[k] == (
                            src[k].token,
                            Principal { display_name: src[k].display_name, role: src[k].role },
                        ),
                    forall|k: int| 0 <= k < j ==> src[k].token@ != entry.token@,
                decreases tokens@.len() - j,
            {
                if tokens[j].0 == entry.token {
                    assert(src[j as int].token@ == src[i as int].token@);
                    assert(token_repeated(src, i as int));
                    assert(!token_entry_ok(src, i as int));
                    return Err(AccessError::DuplicateToken(entry.display_name));
                }
                j = j + 1;
            }
            assert(token_entry_ok(src, i as int));
            tokens.push((entry.token, Principal { display_name: entry.display_name, role: entry.role }));
            i = i + 1;
        }
        let ghost view = tokens@.map_values(|e: (String, Principal)| (e.0@, e.1));
        assert forall|a: int, b: int|
            0 <= a < view.len() && 0 <= b < view.len() && a != b implies #[trigger] view[a].0
                != #[trigger] view[b].0 by {
            if a < b {
                assert(token_entry_ok(src, b));
                assert(view[a].0 == src[a].token@);
            } else {
                assert(token_entry_ok(src, a));
                assert(view[b].0 == src[b].token@);
            }
        }
        let ac = AccessControl { tokens };
        assert(ac.entries() =~= src.map_values(
            |e: TokenEntry| (e.token@, Principal { display_name: e.display_name, role: e.role }),
        ));
        Ok(ac)
    }

    /// True when at least one token is configured. When false the service is
    /// in open development mode.
    pub fn enforced(&self) -> (b: bool)
        ensures
            b == (self.entries().len() > 0),
    {
        self.tokens.len() > 0
    }

    pub fn principal_count(&self) -> (n: usize)
        ensures
            n == self.entries().len(),
    {
        self.tokens.len()
    }

    /// Decide whether a presented token may act with the required role.
    #[verifier::loop_isolation(false)]
    pub fn decide(&self, presented: Option<&str>, required: Role) -> (d: AuthDecision)
        ensures
            d == self.decision_for(
                match presented {
                    Some(t) => Some(t@),
                    None => None,
                },
                required,
            ),
    {
        proof {
            use_type_invariant(self);
        }
        if !self.enforced() {
            return AuthDecision::Allow(None);
        }
        let token = match presented {
            None => return AuthDecision::Unauthenticated,
            Some(t) => t,
        };
        let mut i: usize = 0;
        while i < self.tokens.len()
            invariant
                i <= self.tokens@.len(),
                Self::distinct_tokens(self.entries()),
                forall|k: int| 0 <= k < i ==> self.entries()[k].0 != token@,
            decreases self.tokens@.len() - i,
        {
            if str_eq(self.tokens[i].0.as_str(), token) {
                let ghost e = self.entries();
                assert(e[i as int] == (self.tokens@[i as int].0@, self.tokens@[i as int].1));
                assert(e[i as int].0 == token@);
                proof {
                    let w = choose|w: int| 0 <= w < e.len() && #[trigger] e[w].0 == token@;
                    if w != i {
                        assert(e[w].0 != e[i as int].0);
                    }
                    assert(self.principal_for(token@) == Some(e[i as int].1));
                }
                let principal = &self.tokens[i].1;
                assert(e[i as int].1 == *principal);
                if principal.role.allows(required) {
                    let p = principal.clone();
                    assert(self.principal_for(token@) == Some(p));
                    return AuthDecision::Allow(Some(p));
                } else {
                    return AuthDecision::Forbidden;
                }
            }
            i = i + 1;
        }
        AuthDecision::Unauthenticated
    }
}

/// The roles form a hierarchy: an operator may act wherever any role is
/// needed, the scoring role wherever it or a viewer is, and a viewer only where
/// a viewer is; and permission passes down the hierarchy.
pub proof fn law_role_hierarchy(a: Role, b: Role, c: Role)
    ensures
        Role::Operator.rank() >= a.rank(),
        a.rank() >= a.rank(),
        Role::Viewer.rank() >= a.rank() <==> a == Role::Viewer,
        a.rank() >= b.rank() && b.rank() >= c.rank() ==> a.rank() >= c.rank(),
        a.rank() >= b.rank() && b.rank() >= a.rank() ==> a == b,
{
}

/// Once access is enforced, a configured token is allowed, as its principal,
/// wherever its role suffices: an operator everywhere, the scoring role where
/// it or a viewer is needed, a viewer where a viewer is needed; elsewhere it
/// is forbidden.
pub proof fn law_configured_token_by_role(ac: AccessControl, token: Seq<char>, p: Principal, required: Role)
    requires
        ac.entries().len() > 0,
        ac.principal_for(token) == Some(p),
    ensures
        (p.role == Role::Operator || p.role == required || required == Role::Viewer) ==> ac.decision_for(
            Some(token),
            required,
        ) == AuthDecision::Allow(Some(p)),
        (p.role == Role::Viewer && required != Role::Viewer) || (p.role == Role::Reviewer && required
            == Role::Operator) ==> ac.decision_for(Some(token), required) == AuthDecision::Forbidden,
{
}

/// With no token configured every request is allowed, anonymously.
pub proof fn law_open_mode_allows_everything(ac: AccessControl, presented: Option<Seq<char>>, required: Role)
    requires
        ac.entries().len() == 0,
    ensures
        ac.decision_for(presented, required) == AuthDecision::Allow(None),
{
}

/// A token allowed where a role is needed is allowed wherever a lower role is.
pub proof fn law_permission_passes_down(ac: AccessControl, presented: Option<Seq<char>>, required: Role, lower: Role)
    requires
        lower.rank() <= required.rank(),
        ac.decision_for(presented, required) is Allow,
    ensures
        ac.decision_for(presented, lower) == ac.decision_for(presented, required),
{
}

/// Once access is enforced, only a configured token is ever allowed, and a
/// refusal for want of role concerns a configured token.
pub proof fn law_enforced_access_needs_a_known_token(ac: AccessControl, presented: Option<Seq<char>>, required: Role)
    requires
        ac.entries().len() > 0,
        !(ac.decision_for(presented, required) is Unauthenticated),
    ensures
        presented matches Some(t) && ac.principal_for(t) is Some,
{
}

/// Every `/api/` route but the health probe needs a role.
pub proof fn law_api_routes_need_a_role(method: Seq<char>, path: Seq<char>)
    requires
        has_prefix(path, "/api/"@),
        path != "/api/health"@,
    ensures
        route_role(method, path) is Some,
{
}

/// The role required to call `method` on `path`. `None` means the route is
/// open: the health probe and everything outside `/api/`.
pub open spec fn route_role(method: Seq<char>, path: Seq<char>) -> Option<Role> {
    if !has_prefix(path, "/api/"@) || path == "/api/health"@ {
        None
    } else if method == "GET"@ || method == "HEAD"@ {
        Some(Role::Viewer)
    } else if has_suffix(path, "/review"@) {
        Some(Role::Reviewer)
    } else {
        Some(Role::Operator)
    }
}

/// The role required to call a given method and path. `None` means the route
/// is open (the health probe and static assets).
pub fn required_role(method: &str, path: &str) -> (r: Option<Role>)
    ensures
        r == route_role(method@, path@),
{
    if !starts_with(path, "/api/") || str_eq(path, "/api/health") {
        return None;
    }
    if str_eq(method, "GET") || str_eq(method, "HEAD") {
        Some(Role::Viewer)
    } else if ends_with(path, "/review") {
        Some(Role::Reviewer)
    } else {
        Some(Role::Operator)
    }
}

/// The token that an `Authorization` header value carries: what follows
/// `Bearer ` (or `bearer `), trimmed, when that is not empty.
pub open spec fn bearer_token(header: Seq<char>) -> Option<Seq<char>> {
    let rest = if has_prefix(header, "Bearer "@) || has_prefix(header, "bearer "@) {
        Some(header.subrange(7, header.len() as int))
    } else {
        None
    };
    match rest {
        Some(r) if trimmed(r).len() > 0 => Some(trimmed(r)),
        _ => None,
    }
}

/// Extract a bearer token from an `Authorization` header value.
pub fn bearer(header: Option<&str>) -> (r: Option<&str>)
    ensures
        match header {
            None => r is None,
            Some(h) => match bearer_token(h@) {
                None => r is None,
                Some(t) => r matches Some(x) && x@ == t,
            },
        },
{
    let value = match header {
        None => return None,
        Some(v) => v,
    };
    proof {
        reveal_strlit("Bearer ");
        reveal_strlit("bearer ");
    }
    if !starts_with(value, "Bearer ") && !starts_with(value, "bearer ") {
        return None;
    }
    let n = value.unicode_len();
    let rest = value.substring_char(7, n);
    let token = trim(rest);
    if token.unicode_len() == 0 {
        None
    } else {
        Some(token)
    }
}

} // verus!
