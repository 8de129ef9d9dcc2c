//! The codec: stateless functions between claims payloads and signed compact
//! tokens. A token is an opaque string of three segments — header, payload,
//! signature — whose byte-for-byte format is owned by the outside signing
//! primitive. This module delegates framing and signing to that primitive and
//! captures its deterministic behaviour in named specification functions, so
//! that callers get an exact round-trip contract.

use vstd::prelude::*;

use crate::claims::canonical_subject_wire;
use crate::config::Algorithm;
use crate::config::HeaderConfig;
use crate::config::ValidationConfig;
use crate::config::alg_code;
use crate::config::leeway_in_range;
use crate::error::ErrorKind;
use crate::error::JWTError;

verus! {

/// The compact token that the outside signing primitive builds from an
/// algorithm, a claims payload and a secret. The primitive's HMAC family is
/// deterministic, so the token is a function of these three inputs alone, in
/// every process and on every machine.
pub uninterp spec fn token_of(alg: int, payload: Seq<u8>, secret: Seq<u8>) -> Seq<char>;

/// Whether serde_json accepts `payload` as a single well-formed raw JSON
/// value and hands exactly these bytes back wherever the value is
/// re-serialized or read out of a decoded token again.
pub uninterp spec fn wire_ok(payload: Seq<u8>) -> bool;

/// Whether the outside decoder's rule checker can read its standard claims
/// ("exp" and the like) out of `payload`; in effect, whether the payload is a
/// JSON object.
pub uninterp spec fn validatable(payload: Seq<u8>) -> bool;

/// The expiry claim that the rule checker reads from `payload`: `None` when
/// no "exp" member is present, `Some(None)` when one is present but is not a
/// number, and `Some(Some(t))` when it is the instant `t`.
pub uninterp spec fn exp_claim(payload: Seq<u8>) -> Option<Option<u64>>;

/// Whether the outside decoder's deterministic checks pass on `token` for the
/// accepted algorithm `alg` and the key `secret`: the three-segment structure
/// parses, the header names exactly `alg`, the signature verifies under
/// `secret`, and the payload is readable. Time-based rules are not part of
/// this.
pub uninterp spec fn token_accepted(token: Seq<char>, alg: int, secret: Seq<u8>) -> bool;

/// Whether the deterministic checks that come before the signature
/// comparison pass on `token` for the accepted algorithm `alg`: the
/// three-segment structure parses, the header is readable and names exactly
/// `alg`, and the signature segment's characters are readable. No secret
/// takes part in these checks.
pub uninterp spec fn token_parsed(token: Seq<char>, alg: int) -> bool;

/// Whether the token's signature segment is exactly the one the primitive
/// computes over the first two segments under `secret` — deterministic in the
/// token and the secret.
pub uninterp spec fn token_signed(token: Seq<char>, secret: Seq<u8>) -> bool;

/// The number of dot separators in a token string: two, one between each
/// pair of the three segments.
pub open spec fn segment_dots(t: Seq<char>) -> nat {
    t.filter(|c: char| c == '.').len()
}

#[verifier::external_type_specification]
#[verifier::external_body]
pub struct ExValidation(jsonwebtoken::Validation);

#[verifier::external_type_specification]
#[verifier::external_body]
pub struct ExJsonWebTokenError(jsonwebtoken::errors::Error);

/// Relies on jsonwebtoken::Validation::new, its public fields and its
/// set_issuer/set_audience helpers: builds the outside decoder's rule set
/// from this crate's validation parameters, with exactly one accepted
/// algorithm, no required claims, the expiry rule as configured, and the
/// issuer and audience rules exactly where a value is configured for them.
#[verifier::external_body]
fn make_validation(rules: &ValidationConfig) -> jsonwebtoken::Validation {
    let mut v = jsonwebtoken::Validation::new(match rules.alg {
        Algorithm::HS256 => jsonwebtoken::Algorithm::HS256,
        Algorithm::HS384 => jsonwebtoken::Algorithm::HS384,
        Algorithm::HS512 => jsonwebtoken::Algorithm::HS512,
    });
    v.leeway = rules.leeway_secs;
    v.reject_tokens_expiring_in_less_than = 0;
    v.validate_exp = rules.validate_exp;
    v.validate_nbf = false;
    v.validate_aud = rules.aud.is_some();
    v.required_spec_claims = std::collections::HashSet::new();
    if let Some(i) = &rules.iss { v.set_issuer(&[i.as_str()]); }
    if let Some(a) = &rules.aud { v.set_audience(&[a.as_str()]); }
    v
}

/// Relies on jsonwebtoken::errors::Error::kind: maps each failure of the
/// outside decoder onto this crate's taxonomy. Structural failures become
/// `MalformedToken`, a failed signature comparison `InvalidSignature`, a past
/// expiry instant `Expired`, and every other rule `ValidationFailed`.
#[verifier::external_body]
fn decode_error_kind(e: &jsonwebtoken::errors::Error) -> (r: ErrorKind)
    ensures
        r == ErrorKind::MalformedToken || r == ErrorKind::InvalidSignature
            || r == ErrorKind::Expired || r == ErrorKind::ValidationFailed,
{
    match e.kind() {
        jsonwebtoken::errors::ErrorKind::InvalidToken => ErrorKind::MalformedToken,
        jsonwebtoken::errors::ErrorKind::Base64(_) => ErrorKind::MalformedToken,
        jsonwebtoken::errors::ErrorKind::Json(_) => ErrorKind::MalformedToken,
        jsonwebtoken::errors::ErrorKind::Utf8(_) => ErrorKind::MalformedToken,
        jsonwebtoken::errors::ErrorKind::InvalidSignature => ErrorKind::InvalidSignature,
        jsonwebtoken::errors::ErrorKind::ExpiredSignature => ErrorKind::Expired,
        _ => ErrorKind::ValidationFailed,
    }
}

/// Relies on jsonwebtoken::encode with an HMAC secret and on serde_json's raw
/// JSON values: the payload bytes are framed, signed, and the result is the
/// deterministic token named by `token_of`. For the HMAC family the primitive
/// accepts any secret and never fails to sign, so the only failure is a
/// payload that is not one well-formed JSON value. The compact serialization
/// joins three dot-free base64 segments with two dots, and embeds payloads
/// that `wire_ok` names verbatim, so two distinct such payloads give distinct
/// middle segments and distinct tokens. A canonical one-member subject object
/// over unescaped printable bytes is plainly such a payload, is an object the
/// rule checker reads, and carries no expiry member.
#[verifier::external_body]
fn jwt_encode(alg: Algorithm, payload: &Vec<u8>, secret: &Vec<u8>) -> (r: Result<String, JWTError>)
    ensures
        r matches Ok(t) ==> t@ == token_of(alg_code(alg), payload@, secret@),
        wire_ok(payload@) ==> r is Ok,
        canonical_subject_wire(payload@) ==> r is Ok,
        r matches Err(e) ==> e.kind == ErrorKind::EncodingError && !wire_ok(payload@),
        r matches Ok(t) ==> (validatable(payload@) ==> token_accepted(
            t@,
            alg_code(alg),
            secret@,
        )),
        r matches Ok(t) ==> segment_dots(t@) == 2,
        r matches Ok(t) ==> token_parsed(t@, alg_code(alg)) && token_signed(t@, secret@),
        r matches Ok(t) ==> (wire_ok(payload@) ==> forall|p2: Seq<u8>|
            p2 != payload@ && wire_ok(p2) ==> #[trigger] token_of(alg_code(alg), p2, secret@)
                != t@),
        r is Ok ==> (canonical_subject_wire(payload@) ==> wire_ok(payload@) && validatable(
            payload@,
        ) && exp_claim(payload@) is None),
{
    let raw: Box<serde_json::value::RawValue> = match serde_json::from_slice(payload.as_slice()) {
        Ok(r) => r,
        Err(_) => return Err(JWTError { kind: ErrorKind::EncodingError }),
    };
    let hdr = jsonwebtoken::Header::new(match alg {
        Algorithm::HS256 => jsonwebtoken::Algorithm::HS256,
        Algorithm::HS384 => jsonwebtoken::Algorithm::HS384,
        Algorithm::HS512 => jsonwebtoken::Algorithm::HS512,
    });
    let key = jsonwebtoken::EncodingKey::from_secret(secret.as_slice());
    jsonwebtoken::encode(&hdr, &raw, &key).map_err(|_| JWTError { kind: ErrorKind::EncodingError })
}

/// Relies on jsonwebtoken::decode with an HMAC secret: parses the token,
/// verifies its signature, applies the rules that `make_validation` builds,
/// and hands the payload bytes back verbatim. Everything but the expiry rule
/// is deterministic in the token, the rules and the secret; the expiry rule
/// alone reads the clock, so of it only the possible outcomes are stated, and
/// success is owed only where the clock and the issuer/audience rules cannot
/// decide. A token whose pre-signature checks pass but whose signature
/// comparison fails is rejected exactly as `InvalidSignature`. The leeway
/// bound keeps the primitive's clock arithmetic away from underflow on any
/// clock later than the earliest moments of the epoch.
#[verifier::external_body]
fn jwt_decode(token: &str, rules: &ValidationConfig, secret: &Vec<u8>) -> (r: Result<
    Vec<u8>,
    JWTError,
>)
    requires
        leeway_in_range(*rules),
    ensures
        r is Ok ==> token_accepted(token@, alg_code(rules.alg), secret@) && token_parsed(
            token@,
            alg_code(rules.alg),
        ) && token_signed(token@, secret@),
        r matches Err(e) ==> (e.kind == ErrorKind::MalformedToken
            || e.kind == ErrorKind::InvalidSignature || e.kind == ErrorKind::Expired
            || e.kind == ErrorKind::ValidationFailed),
        !token_accepted(token@, alg_code(rules.alg), secret@) ==> r is Err,
        r matches Err(e) ==> (!token_accepted(token@, alg_code(rules.alg), secret@) ==> e.kind
            != ErrorKind::Expired),
        r matches Err(e) ==> (token_parsed(token@, alg_code(rules.alg)) && !token_signed(
            token@,
            secret@,
        ) ==> e.kind == ErrorKind::InvalidSignature),
        r matches Ok(pl) ==> forall|p: Seq<u8>|
            token@ == #[trigger] token_of(alg_code(rules.alg), p, secret@) && wire_ok(p) ==> pl@
                == p,
        (exists|p: Seq<u8>|
            token@ == #[trigger] token_of(alg_code(rules.alg), p, secret@) && wire_ok(p)
                && validatable(p) && !rules.validate_exp) && rules.iss is None && rules.aud is None
            ==> r is Ok,
        (exists|p: Seq<u8>|
            token@ == #[trigger] token_of(alg_code(rules.alg), p, secret@) && wire_ok(p)
                && validatable(p) && exp_claim(p) is None) && rules.iss is None && rules.aud is None
            ==> r is Ok,
        r matches Err(e) ==> ((exists|p: Seq<u8>|
            token@ == #[trigger] token_of(alg_code(rules.alg), p, secret@) && wire_ok(p)
                && validatable(p)) ==> e.kind == ErrorKind::Expired
            || e.kind == ErrorKind::ValidationFailed),
{
    let v = make_validation(rules);
    let key = jsonwebtoken::DecodingKey::from_secret(secret.as_slice());
    match jsonwebtoken::decode::<Box<serde_json::value::RawValue>>(token, &key, &v) {
        Ok(data) => Ok(data.claims.get().as_bytes().to_vec()),
        Err(e) => Err(JWTError { kind: decode_error_kind(&e) }),
    }
}

/// Serialize-and-sign: turn a claims payload into a signed three-segment
/// token under the given header parameters and secret. Succeeds on every
/// payload that is one well-formed JSON value; the token is the deterministic
/// function `token_of` of the algorithm, the payload and the secret, and
/// distinct well-formed payloads always give distinct tokens.
pub fn encode(header: &HeaderConfig, payload: &Vec<u8>, secret: &Vec<u8>) -> (r: Result<
    String,
    JWTError,
>)
    ensures
        r matches Ok(t) ==> t@ == token_of(alg_code(header.alg), payload@, secret@),
        wire_ok(payload@) ==> r is Ok,
        canonical_subject_wire(payload@) ==> r is Ok,
        r matches Err(e) ==> e.kind == ErrorKind::EncodingError && !wire_ok(payload@),
        r matches Ok(t) ==> (validatable(payload@) ==> token_accepted(
            t@,
            alg_code(header.alg),
            secret@,
        )),
        r matches Ok(t) ==> segment_dots(t@) == 2,
        r matches Ok(t) ==> token_parsed(t@, alg_code(header.alg)) && token_signed(t@, secret@),
        r matches Ok(t) ==> (wire_ok(payload@) ==> forall|p2: Seq<u8>|
            p2 != payload@ && wire_ok(p2) ==> #[trigger] token_of(
                alg_code(header.alg),
                p2,
                secret@,
            ) != t@),
        r is Ok ==> (canonical_subject_wire(payload@) ==> wire_ok(payload@) && validatable(
            payload@,
        ) && exp_claim(payload@) is None),
{
    jwt_encode(header.alg, payload, secret)
}

/// Verify-and-deserialize: parse the token, check its signature against the
/// secret, apply the validation rules, and return the claims payload.
///
/// On a token that the deterministic checks reject, the result is an error
/// and never `Expired`; one that parses for the accepted algorithm but whose
/// signature comparison fails is rejected exactly as `InvalidSignature`. On a
/// token built by `encode` under the same algorithm and secret from a
/// readable payload, the result is exactly that payload when no issuer or
/// audience rule is set and the expiry rule is off or the payload carries no
/// expiry claim; the only other possible outcomes there are `Expired` and
/// `ValidationFailed`.
pub fn decode(token: &str, secret: &Vec<u8>, validation: &ValidationConfig) -> (r: Result<
    Vec<u8>,
    JWTError,
>)
    requires
        leeway_in_range(*validation),
    ensures
        r is Ok ==> token_accepted(token@, alg_code(validation.alg), secret@) && token_parsed(
            token@,
            alg_code(validation.alg),
        ) && token_signed(token@, secret@),
        r matches Err(e) ==> (e.kind == ErrorKind::MalformedToken
            || e.kind == ErrorKind::InvalidSignature || e.kind == ErrorKind::Expired
            || e.kind == ErrorKind::ValidationFailed),
        !token_accepted(token@, alg_code(validation.alg), secret@) ==> r is Err,
        r matches Err(e) ==> (!token_accepted(token@, alg_code(validation.alg), secret@) ==> e.kind
            != ErrorKind::Expired),
        r matches Err(e) ==> (token_parsed(token@, alg_code(validation.alg)) && !token_signed(
            token@,
            secret@,
        ) ==> e.kind == ErrorKind::InvalidSignature),
        r matches Ok(pl) ==> forall|p: Seq<u8>|
            token@ == #[trigger] token_of(alg_code(validation.alg), p, secret@) && wire_ok(p)
                ==> pl@ == p,
        (exists|p: Seq<u8>|
            token@ == #[trigger] token_of(alg_code(validation.alg), p, secret@) && wire_ok(p)
                && validatable(p) && !validation.validate_exp) && validation.iss is None
            && validation.aud is None ==> r is Ok,
        (exists|p: Seq<u8>|
            token@ == #[trigger] token_of(alg_code(validation.alg), p, secret@) && wire_ok(p)
                && validatable(p) && exp_claim(p) is None) && validation.iss is None
            && validation.aud is None ==> r is Ok,
        r matches Err(e) ==> ((exists|p: Seq<u8>|
            token@ == #[trigger] token_of(alg_code(validation.alg), p, secret@) && wire_ok(p)
                && validatable(p)) ==> e.kind == ErrorKind::Expired
            || e.kind == ErrorKind::ValidationFailed),
{
    jwt_decode(token, validation, secret)
}

} // verus!
