//! Immutable configuration of the token core: the signing secret, the header
//! parameters of issued tokens, and the rules applied when a token is
//! validated. A configuration is never mutated after construction; pipeline
//! stages share it by cloning, and a clone carries exactly the same data.

use vstd::prelude::*;

verus! {

/// The signing algorithms this core supports: the HMAC family, whose keys are
/// raw secret bytes. Asymmetric algorithms would need key material in a
/// different format and are out of scope.
#[derive(Clone, Copy, Debug, PartialEq, Eq, Structural)]
pub enum Algorithm {
    HS256,
    HS384,
    HS512,
}

/// A numeric identifier for an algorithm, used by the specification-level
/// description of the token format.
pub open spec fn alg_code(a: Algorithm) -> int {
    match a {
        Algorithm::HS256 => 256,
        Algorithm::HS384 => 384,
        Algorithm::HS512 => 512,
    }
}

/// The header parameters of an issued token: which algorithm signs it.
#[derive(Clone, Copy, Debug, PartialEq, Eq, Structural)]
pub struct HeaderConfig {
    pub alg: Algorithm,
}

/// An optional rule value as a sequence of characters, when one is set.
pub open spec fn rule_text(a: Option<String>) -> Option<Seq<char>> {
    match a {
        Some(s) => Some(s@),
        None => None,
    }
}

/// The rules applied when a token is validated.
#[derive(Debug, PartialEq, Eq)]
pub struct ValidationConfig {
    /// The one algorithm accepted from an incoming token's header.
    pub alg: Algorithm,
    /// Clock-skew tolerance, in seconds, granted when the expiry instant is
    /// checked.
    pub leeway_secs: u64,
    /// Whether a token that carries an expiry claim is checked against the
    /// current time.
    pub validate_exp: bool,
    /// The accepted issuer: a token that carries an issuer claim must name
    /// exactly this one. `None` switches the rule off. A token without an
    /// issuer claim passes either way.
    pub iss: Option<String>,
    /// The accepted audience: a token that carries an audience claim must
    /// include this one. `None` switches the rule off. A token without an
    /// audience claim passes either way.
    pub aud: Option<String>,
}

impl ValidationConfig {
    /// Two rule sets carry the same data.
    pub open spec fn same_rules(&self, other: &ValidationConfig) -> bool {
        &&& self.alg == other.alg
        &&& self.leeway_secs == other.leeway_secs
        &&& self.validate_exp == other.validate_exp
        &&& rule_text(self.iss) == rule_text(other.iss)
        &&& rule_text(self.aud) == rule_text(other.aud)
    }
}

impl Clone for ValidationConfig {
    fn clone(&self) -> (r: Self)
        ensures
            r.same_rules(self),
    {
        let iss = match &self.iss {
            Some(s) => Some(s.clone()),
            None => None,
        };
        let aud = match &self.aud {
            Some(s) => Some(s.clone()),
            None => None,
        };
        ValidationConfig {
            alg: self.alg,
            leeway_secs: self.leeway_secs,
            validate_exp: self.validate_exp,
            iss,
            aud,
        }
    }
}

/// The validation rules stay within machine limits that the checking code
/// relies on: the leeway is at most about eleven days, far above any real
/// clock skew.
pub open spec fn leeway_in_range(v: ValidationConfig) -> bool {
    v.leeway_secs <= 1000000
}

/// The whole configuration of the core: secret key material, header
/// parameters for issuance, and validation rules for incoming tokens.
///
/// No validation happens at construction time; an unusable configuration
/// surfaces only when encoding or decoding is attempted.
#[derive(Debug)]
pub struct JWTConfig {
    /// The signing and verification key material. A real deployment must use
    /// a non-empty secret; an empty one is a caller error that this core does
    /// not check.
    pub secret: Vec<u8>,
    pub header: HeaderConfig,
    pub validation: ValidationConfig,
}

impl JWTConfig {
    /// Two configurations carry the same data.
    pub open spec fn same_config(&self, other: &JWTConfig) -> bool {
        &&& self.secret@ == other.secret@
        &&& self.header == other.header
        &&& self.validation.same_rules(&other.validation)
    }
}

impl Clone for JWTConfig {
    fn clone(&self) -> (r: Self)
        ensures
            r.same_config(self),
    {
        let secret = self.secret.clone();
        proof {
            assert(secret@ =~= self.secret@);
        }
        JWTConfig { secret, header: self.header, validation: self.validation.clone() }
    }
}

impl Default for HeaderConfig {
    /// The default header signs with HS256.
    fn default() -> (r: Self)
        ensures
            r.alg == Algorithm::HS256,
    {
        HeaderConfig { alg: Algorithm::HS256 }
    }
}

impl Default for ValidationConfig {
    /// The default rules accept HS256 tokens, grant no leeway, check the
    /// expiry claim when one is present, and check neither issuer nor
    /// audience.
    fn default() -> (r: Self)
        ensures
            r.alg == Algorithm::HS256,
            r.leeway_secs == 0,
            r.validate_exp,
            r.iss is None,
            r.aud is None,
    {
        ValidationConfig {
            alg: Algorithm::HS256,
            leeway_secs: 0,
            validate_exp: true,
            iss: None,
            aud: None,
        }
    }
}

impl Default for JWTConfig {
    /// The default configuration: an empty secret with default header and
    /// rules. Usable only after a caller replaces the secret.
    fn default() -> (r: Self)
        ensures
            r.secret@ == Seq::<u8>::empty(),
            r.header.alg == Algorithm::HS256,
            r.validation.alg == Algorithm::HS256,
            r.validation.leeway_secs == 0,
            r.validation.validate_exp,
            r.validation.iss is None,
            r.validation.aud is None,
    {
        let secret: Vec<u8> = Vec::new();
        JWTConfig {
            secret,
            header: HeaderConfig { alg: Algorithm::HS256 },
            validation: ValidationConfig {
                alg: Algorithm::HS256,
                leeway_secs: 0,
                validate_exp: true,
                iss: None,
                aud: None,
            },
        }
    }
}

} // verus!
