//! The error taxonomy of the authentication core. Every failure is a typed
//! value; no verified function of this crate panics on attacker-controlled
//! input.

use vstd::prelude::*;

verus! {

/// What went wrong while issuing or validating a token.
///
/// The kinds are distinguishable so that a boundary layer can translate each
/// into its own transport-level status.
#[derive(Clone, Copy, Debug, PartialEq, Eq, Structural)]
pub enum ErrorKind {
    /// No bearer credential was present in the request's authorization carrier.
    MissingCredential,
    /// The token's structure could not be parsed.
    MalformedToken,
    /// The token's signature did not verify against the configured secret.
    InvalidSignature,
    /// The token carried an expiry instant that is already past.
    Expired,
    /// A validation rule other than expiry rejected the token.
    ValidationFailed,
    /// The claims could not be serialized or signed during issuance.
    EncodingError,
}

/// An authentication failure, carrying the kind that a boundary layer maps to
/// a response.
#[derive(Clone, Copy, Debug, PartialEq, Eq, Structural)]
pub struct JWTError {
    pub kind: ErrorKind,
}

/// The fixed description belonging to each error kind.
pub open spec fn kind_message(kind: ErrorKind) -> Seq<char> {
    match kind {
        ErrorKind::MissingCredential => "no bearer credential in the request"@,
        ErrorKind::MalformedToken => "token structure could not be parsed"@,
        ErrorKind::InvalidSignature => "token signature did not verify"@,
        ErrorKind::Expired => "token is expired"@,
        ErrorKind::ValidationFailed => "token was rejected by a validation rule"@,
        ErrorKind::EncodingError => "claims could not be serialized or signed"@,
    }
}

impl JWTError {
    /// A human-readable description of the failure.
    pub fn message(&self) -> (r: &'static str)
        ensures
            r@ == kind_message(self.kind),
    {
        match self.kind {
            ErrorKind::MissingCredential => "no bearer credential in the request",
            ErrorKind::MalformedToken => "token structure could not be parsed",
            ErrorKind::InvalidSignature => "token signature did not verify",
            ErrorKind::Expired => "token is expired",
            ErrorKind::ValidationFailed => "token was rejected by a validation rule",
            ErrorKind::EncodingError => "claims could not be serialized or signed",
        }
    }
}

} // verus!
