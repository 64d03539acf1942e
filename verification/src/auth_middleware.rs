//! The auth gate: a per-request decision with states Unchecked, Bypassed,
//! Authenticated and Rejected. Pre-flight requests and bypass-listed path
//! prefixes pass untouched; everything else needs a bearer token that the
//! token service accepts. The decision is a pure function of the request
//! metadata, the auth gate's configuration and the clock, so concurrent
//! requests evaluate it independently.

use vstd::prelude::*;
use crate::errors::AppError;
use crate::jwt::{Claims, spec_verify_jwt, verify_jwt};

verus! {

/// The request methods the auth gate distinguishes; only pre-flight requests
/// (`Options`) matter to the decision, the rest are carried for
/// faithfulness to the transport.
#[derive(Debug, Clone, Copy, PartialEq, Eq, Structural)]
pub enum HttpMethod {
    Options,
    Get,
    Post,
    Put,
    Patch,
    Delete,
    Head,
    Other,
}

/// Whether `p` is a prefix of `s`.
pub open spec fn spec_is_prefix(p: Seq<char>, s: Seq<char>) -> bool {
    p.len() <= s.len() && s.subrange(0, p.len() as int) == p
}

/// Decides `spec_is_prefix(p@, s@)`.
fn str_has_prefix(s: &str, p: &str) -> (r: bool)
    ensures
        r == spec_is_prefix(p@, s@),
{
    let pn = p.unicode_len();
    let sn = s.unicode_len();
    if pn > sn {
        return false;
    }
    let mut i: usize = 0;
    while i < pn
        invariant
            i <= pn,
            pn == p@.len(),
            pn <= sn,
            sn == s@.len(),
            forall|j: int| 0 <= j < i ==> s@[j] == p@[j],
        decreases pn - i,
    {
        if s.get_char(i) != p.get_char(i) {
            assert(s@.subrange(0, pn as int)[i as int] != p@[i as int]);
            return false;
        }
        i = i + 1;
    }
    assert(s@.subrange(0, pn as int) =~= p@);
    true
}

/// The auth gate configuration built once at startup: the path prefixes exempt
/// from authentication and the token-signing secret.
#[derive(Debug, Clone, PartialEq, Eq)]
pub struct Auth {
    pub bypass_prefixes: Vec<String>,
    pub secret: String,
}

/// The per-request gate constructed from an `Auth` configuration.
#[derive(Debug, Clone, PartialEq, Eq)]
pub struct AuthMiddleware {
    pub bypass_prefixes: Vec<String>,
    pub secret: String,
}

/// Where the auth gate leaves a request: `Unchecked` before evaluation,
/// `Bypassed` and `Authenticated` continue to the handler (the latter with
/// the claims attached), `Rejected` short-circuits the pipeline.
#[derive(Debug, Clone, PartialEq, Eq)]
pub enum GateState {
    Unchecked,
    Bypassed,
    Authenticated(Claims),
    Rejected,
}

/// The auth gate's verdict in specification terms.
pub enum GateVerdict {
    Bypass,
    Accept(Seq<char>, int, int),
    Reject,
}

/// A request escapes authentication exactly when it is a pre-flight
/// request or its path starts with a bypass-listed prefix.
pub open spec fn spec_bypass(prefixes: Seq<Seq<char>>, method: HttpMethod, path: Seq<char>) -> bool {
    method == HttpMethod::Options || exists|i: int|
        0 <= i < prefixes.len() && spec_is_prefix(#[trigger] prefixes[i], path)
}

/// The whole decision: bypass checks first, then the bearer token. The
/// token is the header value after the `"Bearer "` prefix; it must verify
/// under the secret at the current instant.
pub open spec fn spec_gate(
    prefixes: Seq<Seq<char>>,
    method: HttpMethod,
    path: Seq<char>,
    authorization: Option<Seq<char>>,
    secret: Seq<char>,
    now: int,
) -> GateVerdict {
    if spec_bypass(prefixes, method, path) {
        GateVerdict::Bypass
    } else {
        match authorization {
            Option::None => GateVerdict::Reject,
            Option::Some(h) => if !spec_is_prefix("Bearer "@, h) {
                GateVerdict::Reject
            } else {
                match spec_verify_jwt(h.skip(7), secret, now) {
                    Option::Some((sub, exp, iat)) => GateVerdict::Accept(sub, exp, iat),
                    Option::None => GateVerdict::Reject,
                }
            },
        }
    }
}

/// The header value as the specification sees it.
pub open spec fn spec_header_view(authorization: Option<&String>) -> Option<Seq<char>> {
    match authorization {
        Option::Some(h) => Option::Some(h@),
        Option::None => Option::None,
    }
}

impl Auth {
    pub fn new(bypass_prefixes: Vec<String>, secret: String) -> (a: Auth)
        ensures
            a.bypass_prefixes == bypass_prefixes,
            a.secret == secret,
    {
        Auth { bypass_prefixes, secret }
    }

    /// Turns the configuration into the auth gate that requests run through.
    pub fn new_transform(self) -> (m: AuthMiddleware)
        ensures
            m.bypass_prefixes == self.bypass_prefixes,
            m.secret == self.secret,
    {
        AuthMiddleware { bypass_prefixes: self.bypass_prefixes, secret: self.secret }
    }
}

impl AuthMiddleware {
    /// The bypass list as the specification sees it.
    pub open spec fn spec_prefixes(&self) -> Seq<Seq<char>> {
        self.bypass_prefixes@.map_values(|p: String| p@)
    }

    /// This gate's verdict on a request.
    pub open spec fn spec_call(
        &self,
        method: HttpMethod,
        path: Seq<char>,
        authorization: Option<Seq<char>>,
        now: int,
    ) -> GateVerdict {
        spec_gate(self.spec_prefixes(), method, path, authorization, self.secret@, now)
    }

    /// Whether the path starts with a bypass-listed prefix.
    fn path_bypassed(&self, path: &str) -> (r: bool)
        ensures
            r == exists|i: int|
                0 <= i < self.spec_prefixes().len() && spec_is_prefix(
                    #[trigger] self.spec_prefixes()[i],
                    path@,
                ),
    {
        let mut k: usize = 0;
        while k < self.bypass_prefixes.len()
            invariant
                k <= self.bypass_prefixes.len(),
                self.spec_prefixes().len() == self.bypass_prefixes@.len(),
                forall|i: int|
                    0 <= i < k ==> !spec_is_prefix(#[trigger] self.spec_prefixes()[i], path@),
            decreases self.bypass_prefixes.len() - k,
        {
            if str_has_prefix(path, self.bypass_prefixes[k].as_str()) {
                assert(spec_is_prefix(self.spec_prefixes()[k as int], path@));
                return true;
            }
            k = k + 1;
        }
        false
    }

    /// Evaluates the auth gate on one request. The claims inside an
    /// `Authenticated` outcome are exactly what token verification
    /// recovered; `Unchecked` is never returned.
    pub fn call(
        &self,
        method: HttpMethod,
        path: &str,
        authorization: Option<&String>,
        now: i64,
    ) -> (d: GateState)
        ensures
            (d is Bypassed <==> self.spec_call(method, path@, spec_header_view(authorization), now as int) is Bypass),
            (d is Rejected <==> self.spec_call(method, path@, spec_header_view(authorization), now as int) is Reject),
            d matches GateState::Authenticated(c) ==> self.spec_call(
                method,
                path@,
                spec_header_view(authorization),
                now as int,
            ) == GateVerdict::Accept(c.sub@, c.exp as int, c.iat as int),
            !(d is Unchecked),
    {
        proof {
            reveal_strlit("Bearer ");
        }
        let bypass = if method == HttpMethod::Options {
            true
        } else {
            self.path_bypassed(path)
        };
        if bypass {
            return GateState::Bypassed;
        }
        match authorization {
            Option::None => GateState::Rejected,
            Option::Some(h) => {
                if !str_has_prefix(h.as_str(), "Bearer ") {
                    GateState::Rejected
                } else {
                    let n = h.as_str().unicode_len();
                    let token = h.as_str().substring_char(7, n);
                    assert(token@ == h@.skip(7));
                    match verify_jwt(token, self.secret.as_str(), now) {
                        Ok(claims) => GateState::Authenticated(claims),
                        Err(_) => GateState::Rejected,
                    }
                }
            },
        }
    }
}

/// The uniform client-error envelope source for a rejected request; the
/// message does not say which check failed.
pub fn gate_rejection() -> (e: AppError)
    ensures
        e matches AppError::AuthenticationError(m) && m@ == "Authentication required"@,
{
    AppError::AuthenticationError("Authentication required".to_owned())
}

/// Law: the verdict on a bypassed request never looks at the
/// Authorization header — a pre-flight request or a bypass-listed path
/// reaches the handler with any header and with none.
pub proof fn lemma_bypass_ignores_header(
    prefixes: Seq<Seq<char>>,
    method: HttpMethod,
    path: Seq<char>,
    auth_a: Option<Seq<char>>,
    auth_b: Option<Seq<char>>,
    secret: Seq<char>,
    now: int,
)
    requires
        spec_bypass(prefixes, method, path),
    ensures
        spec_gate(prefixes, method, path, auth_a, secret, now) == GateVerdict::Bypass,
        spec_gate(prefixes, method, path, auth_a, secret, now) == spec_gate(
            prefixes,
            method,
            path,
            auth_b,
            secret,
            now,
        ),
{
}

/// Law: on a protected path, a missing header, a header without the
/// bearer shape, and a bearer token that fails verification (malformed,
/// mis-signed, expired or with an empty subject) are all rejected, so no
/// handler ever runs for them.
pub proof fn lemma_protected_rejects_bad_tokens(
    prefixes: Seq<Seq<char>>,
    method: HttpMethod,
    path: Seq<char>,
    authorization: Option<Seq<char>>,
    secret: Seq<char>,
    now: int,
)
    requires
        !spec_bypass(prefixes, method, path),
        match authorization {
            Option::None => true,
            Option::Some(h) => !spec_is_prefix("Bearer "@, h) || spec_verify_jwt(
                h.skip(7),
                secret,
                now,
            ) is None,
        },
    ensures
        spec_gate(prefixes, method, path, authorization, secret, now) == GateVerdict::Reject,
{
}

} // verus!
