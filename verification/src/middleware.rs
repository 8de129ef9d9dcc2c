//! The pipeline stages around the codec: a carrier stage that publishes the
//! configured issuer into a request's context, a guard stage that admits a
//! request only once its bearer token has been verified and decoded, and the
//! composition helper that wraps an arbitrary downstream operation so that it
//! requires a valid token.

use vstd::prelude::*;

use crate::claims::JWTClaims;
use crate::claims::SubjectClaims;
use crate::claims::canonical_subject_wire;
use crate::codec;
use crate::codec::exp_claim;
use crate::codec::segment_dots;
use crate::codec::token_accepted;
use crate::codec::token_of;
use crate::codec::token_parsed;
use crate::codec::token_signed;
use crate::codec::validatable;
use crate::codec::wire_ok;
use crate::config::JWTConfig;
use crate::config::alg_code;
use crate::config::leeway_in_range;
use crate::error::ErrorKind;
use crate::error::JWTError;

verus! {

/// The per-request key/value store of the surrounding pipeline, modeled with
/// one slot per type-qualified key this core writes: the claims slot and the
/// issuer-handle slot, beside the request's authorization carrier.
pub struct RequestContext<T> {
    /// The raw value of the request's authorization carrier, when present.
    pub authorization: Option<String>,
    /// The slot keyed by the claims type; the guard fills it on success.
    pub claims: Option<T>,
    /// The slot keyed by the middleware type; the carrier stage fills it so a
    /// later handler can issue tokens.
    pub issuer: Option<JWTMiddleware<T>>,
}

impl<T> RequestContext<T> {
    /// A fresh per-request context holding the authorization carrier value.
    pub fn new(authorization: Option<String>) -> (r: Self)
        ensures
            r.authorization == authorization,
            r.claims is None,
            r.issuer is None,
    {
        RequestContext { authorization, claims: None, issuer: None }
    }
}

/// The scheme prefix of the standard authorization carrier.
pub open spec fn bearer_prefix() -> Seq<char> {
    seq!['B', 'e', 'a', 'r', 'e', 'r', ' ']
}

/// The carrier value as a sequence of characters, when one is present.
pub open spec fn carrier_view(a: Option<String>) -> Option<Seq<char>> {
    match a {
        Some(s) => Some(s@),
        None => None,
    }
}

/// Whether the carrier holds a bearer credential at all.
pub open spec fn has_bearer(a: Option<String>) -> bool {
    exists|t: Seq<char>| carrier_view(a) == Some(bearer_prefix() + t)
}

/// Split the token out of a carrier value of the form `Bearer <token>`.
/// Returns the token exactly when the value starts with the bearer scheme.
pub fn bearer_token(header_value: &String) -> (r: Option<String>)
    ensures
        r matches Some(t) ==> header_value@ == bearer_prefix() + t@,
        r is None ==> forall|t: Seq<char>| header_value@ != bearer_prefix() + t,
{
    let s = header_value.as_str();
    let n = s.unicode_len();
    if n < 7 {
        proof {
            assert forall|t: Seq<char>| header_value@ != bearer_prefix() + t by {
                assert((bearer_prefix() + t).len() >= 7);
            }
        }
        return None;
    }
    if s.get_char(0) == 'B' && s.get_char(1) == 'e' && s.get_char(2) == 'a' && s.get_char(3) == 'r'
        && s.get_char(4) == 'e' && s.get_char(5) == 'r' && s.get_char(6) == ' ' {
        let token = s.substring_char(7, n).to_owned();
        proof {
            assert(header_value@ =~= bearer_prefix() + token@);
        }
        Some(token)
    } else {
        proof {
            assert forall|t: Seq<char>| header_value@ != bearer_prefix() + t by {
                if header_value@ == bearer_prefix() + t {
                    assert(header_value@[0] == 'B');
                    assert(header_value@[1] == 'e');
                    assert(header_value@[2] == 'a');
                    assert(header_value@[3] == 'r');
                    assert(header_value@[4] == 'e');
                    assert(header_value@[5] == 'r');
                    assert(header_value@[6] == ' ');
                }
            }
        }
        None
    }
}

/// Equal sequences with the bearer prefix in front have equal tails.
proof fn lemma_prefix_cancel(a: Seq<char>, b: Seq<char>)
    requires
        bearer_prefix() + a == bearer_prefix() + b,
    ensures
        a == b,
{
    assert(a =~= (bearer_prefix() + a).subrange(7, (bearer_prefix() + a).len() as int));
    assert(b =~= (bearer_prefix() + b).subrange(7, (bearer_prefix() + b).len() as int));
}

/// The issuer-context carrier: owns one configuration together with the
/// static claims-type binding, and makes both reachable by downstream stages.
/// Created once at route-setup time; never mutated afterwards; duplicated
/// cheaply by cloning, and every clone carries the same configuration.
pub struct JWTMiddleware<T> {
    /// The shared, read-only configuration of this pipeline.
    pub config: JWTConfig,
    pub claims_type: core::marker::PhantomData<T>,
}

impl<T> Clone for JWTMiddleware<T> {
    fn clone(&self) -> (r: Self)
        ensures
            r.config.same_config(&self.config),
    {
        JWTMiddleware { config: self.config.clone(), claims_type: core::marker::PhantomData }
    }
}

impl<T: JWTClaims> JWTMiddleware<T> {
    /// Wrap a configuration as a pipeline stage. Pure construction: nothing
    /// is validated here, and no work is done.
    pub fn new(config: JWTConfig) -> (m: Self)
        ensures
            m.config == config,
    {
        JWTMiddleware { config, claims_type: core::marker::PhantomData }
    }

    /// Issue a signed token for the given claims under the held
    /// configuration. Succeeds on every serializable claims value whose wire
    /// form the serializer accepts — the canonical subject form always among
    /// them; the token is the deterministic function of the algorithm, the
    /// claims' wire form and the secret, so distinct claims with well-formed
    /// wire forms always receive distinct tokens.
    pub fn generate_token(&self, claims: T) -> (r: Result<String, JWTError>)
        ensures
            r matches Ok(t) ==> claims.serializable() && t@ == token_of(
                alg_code(self.config.header.alg),
                claims.wire(),
                self.config.secret@,
            ),
            claims.serializable() && wire_ok(claims.wire()) ==> r is Ok,
            claims.serializable() && canonical_subject_wire(claims.wire()) ==> r is Ok,
            r matches Err(e) ==> e.kind == ErrorKind::EncodingError && !(claims.serializable()
                && wire_ok(claims.wire())),
            r matches Ok(t) ==> (validatable(claims.wire()) ==> token_accepted(
                t@,
                alg_code(self.config.header.alg),
                self.config.secret@,
            )),
            r matches Ok(t) ==> segment_dots(t@) == 2,
            r matches Ok(t) ==> token_parsed(t@, alg_code(self.config.header.alg))
                && token_signed(t@, self.config.secret@),
            r matches Ok(t) ==> (wire_ok(claims.wire()) ==> forall|w2: Seq<u8>|
                w2 != claims.wire() && wire_ok(w2) ==> #[trigger] token_of(
                    alg_code(self.config.header.alg),
                    w2,
                    self.config.secret@,
                ) != t@),
            r is Ok ==> (canonical_subject_wire(claims.wire()) ==> wire_ok(claims.wire())
                && validatable(claims.wire()) && exp_claim(claims.wire()) is None),
    {
        let wire = match claims.to_wire() {
            Ok(w) => w,
            Err(e) => {
                return Err(e);
            },
        };
        codec::encode(&self.config.header, &wire, &self.config.secret)
    }

    /// The composition helper: wrap a downstream operation so that it runs
    /// only behind the validating guard derived from this middleware.
    pub fn validated<H: Handler<T>>(&self, handler: H) -> (g: GuardedHandler<T, H>)
        ensures
            g.guard.config.same_config(&self.config),
            g.handler == handler,
    {
        GuardedHandler {
            guard: JWTValidateMiddleware { config: self.config.clone(), claims_type: core::marker::PhantomData },
            handler,
        }
    }

    /// The carrier stage itself: publish this issuer handle into the
    /// request's context under the middleware-typed key. This stage never
    /// rejects a request.
    pub fn before(&self, req: &mut RequestContext<T>) -> (r: Result<(), JWTError>)
        ensures
            r is Ok,
            final(req).authorization == old(req).authorization,
            final(req).claims == old(req).claims,
            final(req).issuer matches Some(m) && m.config.same_config(&self.config),
    {
        req.issuer = Some(self.clone());
        Ok(())
    }
}

/// The guard: derived from a middleware handle, it verifies the request's
/// bearer token before the pipeline may continue. Stateless per call beyond
/// the shared immutable configuration.
pub struct JWTValidateMiddleware<T> {
    /// The shared, read-only configuration of this pipeline.
    pub config: JWTConfig,
    pub claims_type: core::marker::PhantomData<T>,
}

impl<T> Clone for JWTValidateMiddleware<T> {
    fn clone(&self) -> (r: Self)
        ensures
            r.config.same_config(&self.config),
    {
        JWTValidateMiddleware { config: self.config.clone(), claims_type: core::marker::PhantomData }
    }
}

impl<T> vstd::std_specs::convert::FromSpecImpl<JWTMiddleware<T>> for JWTValidateMiddleware<T> {
    open spec fn obeys_from_spec() -> bool {
        true
    }

    open spec fn from_spec(m: JWTMiddleware<T>) -> Self {
        JWTValidateMiddleware { config: m.config, claims_type: core::marker::PhantomData }
    }
}

impl<T> From<JWTMiddleware<T>> for JWTValidateMiddleware<T> {
    /// Derive the guard that validates with the middleware's configuration.
    fn from(m: JWTMiddleware<T>) -> (r: Self) {
        JWTValidateMiddleware { config: m.config, claims_type: core::marker::PhantomData }
    }
}

impl<T: JWTClaims> JWTValidateMiddleware<T> {
    /// The guard stage: one pass per request, with no state kept across
    /// requests.
    ///
    /// Extract: when the carrier holds no bearer credential the outcome is
    /// `MissingCredential` — distinct from every other failure — and the
    /// context is untouched. Verify-and-decode: the token is checked against
    /// the held secret and rules; on success the decoded claims are published
    /// into the context's claims slot and the pipeline may continue; on any
    /// failure the context is untouched and the specific error is surfaced.
    ///
    /// For a token issued under the same configuration for claims `v` whose
    /// wire form is readable and carries no expiry claim (or with the expiry
    /// rule off), and with no issuer or audience rule set, the guard always
    /// admits the request and publishes claims equivalent to `v`; and it
    /// admits a request at all only when the carrier holds a token that
    /// passes the decoder's deterministic checks.
    pub fn before(&self, req: &mut RequestContext<T>) -> (r: Result<(), JWTError>)
        requires
            leeway_in_range(self.config.validation),
        ensures
            r is Err ==> *final(req) == *old(req),
            !has_bearer(old(req).authorization) ==> (r matches Err(e) && e.kind
                == ErrorKind::MissingCredential),
            r matches Err(e) ==> (e.kind == ErrorKind::MissingCredential <==> !has_bearer(
                old(req).authorization,
            )),
            r matches Err(e) ==> e.kind != ErrorKind::EncodingError,
            r is Ok ==> final(req).authorization == old(req).authorization && final(req).issuer
                == old(req).issuer,
            r is Ok ==> (final(req).claims matches Some(c) && c.serializable()),
            r is Ok ==> (exists|t: Seq<char>|
                carrier_view(old(req).authorization) == Some(bearer_prefix() + t)
                    && #[trigger] token_accepted(
                    t,
                    alg_code(self.config.validation.alg),
                    self.config.secret@,
                )),
            forall|v: T|
                carrier_view(old(req).authorization) == Some(
                    bearer_prefix() + #[trigger] token_of(
                        alg_code(self.config.validation.alg),
                        v.wire(),
                        self.config.secret@,
                    ),
                ) && v.serializable() && wire_ok(v.wire()) && validatable(v.wire()) && (
                !self.config.validation.validate_exp || exp_claim(v.wire()) is None)
                    && self.config.validation.iss is None && self.config.validation.aud is None
                    ==> r is Ok && (final(req).claims matches Some(u) && u.equiv(&v)),
    {
        let token = match &req.authorization {
            None => {
                return Err(JWTError { kind: ErrorKind::MissingCredential });
            },
            Some(h) => {
                match bearer_token(h) {
                    None => {
                        return Err(JWTError { kind: ErrorKind::MissingCredential });
                    },
                    Some(t) => t,
                }
            },
        };
        proof {
            assert(carrier_view(req.authorization) == Some(bearer_prefix() + token@));
            assert forall|v: T|
                carrier_view(req.authorization) == Some(
                    bearer_prefix() + #[trigger] token_of(
                        alg_code(self.config.validation.alg),
                        v.wire(),
                        self.config.secret@,
                    ),
                ) implies token@ == token_of(
                alg_code(self.config.validation.alg),
                v.wire(),
                self.config.secret@,
            ) by {
                lemma_prefix_cancel(
                    token@,
                    token_of(alg_code(self.config.validation.alg), v.wire(), self.config.secret@),
                );
            }
        }
        let payload = match codec::decode(
            token.as_str(),
            &self.config.secret,
            &self.config.validation,
        ) {
            Err(e) => {
                return Err(e);
            },
            Ok(p) => p,
        };
        let claims = match T::from_wire(&payload) {
            None => {
                return Err(JWTError { kind: ErrorKind::MalformedToken });
            },
            Some(c) => c,
        };
        req.claims = Some(claims);
        Ok(())
    }
}

/// A downstream operation that runs once the guard has admitted a request.
/// The operation's author needs no knowledge of token mechanics: the decoded
/// claims are waiting in the request context when the operation runs.
pub trait Handler<T> {
    /// Handle an admitted request.
    fn handle(&mut self, req: &RequestContext<T>);
}

/// A protected operation: the guard runs first, and the wrapped operation
/// runs exactly when the guard admits the request.
pub struct GuardedHandler<T, H> {
    pub guard: JWTValidateMiddleware<T>,
    pub handler: H,
}

impl<T: JWTClaims, H: Handler<T>> GuardedHandler<T, H> {
    /// One pass of the protected operation. On any guard failure the wrapped
    /// operation never runs and neither the context nor the operation's state
    /// changes; on success the operation runs with the decoded claims
    /// published in the context.
    pub fn handle(&mut self, req: &mut RequestContext<T>) -> (r: Result<(), JWTError>)
        requires
            leeway_in_range(old(self).guard.config.validation),
        ensures
            final(self).guard == old(self).guard,
            r is Err ==> *final(req) == *old(req) && final(self).handler == old(self).handler,
            !has_bearer(old(req).authorization) ==> (r matches Err(e) && e.kind
                == ErrorKind::MissingCredential),
            r matches Err(e) ==> (e.kind == ErrorKind::MissingCredential <==> !has_bearer(
                old(req).authorization,
            )),
            r matches Err(e) ==> e.kind != ErrorKind::EncodingError,
            r is Ok ==> (final(req).claims matches Some(c) && c.serializable()),
            r is Ok ==> (exists|t: Seq<char>|
                carrier_view(old(req).authorization) == Some(bearer_prefix() + t)
                    && #[trigger] token_accepted(
                    t,
                    alg_code(old(self).guard.config.validation.alg),
                    old(self).guard.config.secret@,
                )),
            forall|v: T|
                carrier_view(old(req).authorization) == Some(
                    bearer_prefix() + #[trigger] token_of(
                        alg_code(old(self).guard.config.validation.alg),
                        v.wire(),
                        old(self).guard.config.secret@,
                    ),
                ) && v.serializable() && wire_ok(v.wire()) && validatable(v.wire()) && (
                !old(self).guard.config.validation.validate_exp || exp_claim(v.wire()) is None)
                    && old(self).guard.config.validation.iss is None
                    && old(self).guard.config.validation.aud is None ==> r is Ok && (
                final(req).claims matches Some(u) && u.equiv(&v)),
    {
        match self.guard.before(req) {
            Err(e) => Err(e),
            Ok(()) => {
                self.handler.handle(req);
                Ok(())
            },
        }
    }
}

/// An operation that records how it was invoked: how often, and with which
/// subject waiting in the context. It lets a caller observe that the guard
/// runs an operation exactly once per admitted request and never otherwise.
#[derive(Debug)]
pub struct RecordingHandler {
    pub calls: u64,
    pub last_sub: Option<Vec<u8>>,
}

impl RecordingHandler {
    /// A recorder that has seen nothing yet.
    pub fn new() -> (r: Self)
        ensures
            r.calls == 0,
            r.last_sub is None,
    {
        RecordingHandler { calls: 0, last_sub: None }
    }
}

impl Handler<SubjectClaims> for RecordingHandler {
    fn handle(&mut self, req: &RequestContext<SubjectClaims>)
        ensures
            final(self).calls == if old(self).calls < u64::MAX {
                old(self).calls + 1
            } else {
                old(self).calls as int
            },
            req.claims matches Some(c) ==> (final(self).last_sub matches Some(s) && s@ == c.sub@),
            req.claims is None ==> final(self).last_sub == old(self).last_sub,
    {
        if self.calls < u64::MAX {
            self.calls = self.calls + 1;
        }
        match &req.claims {
            Some(c) => {
                let copy = c.clone();
                self.last_sub = Some(copy.sub);
            },
            None => {},
        }
    }
}


} // verus!

