//! Bearer-token authentication for a request pipeline: issuing signed tokens
//! that carry application claims, and guarding downstream operations so that
//! they only run once an incoming token has been verified and decoded.
//!
//! - [`config`] holds the immutable description of the signing secret, the
//!   token header parameters and the validation rules.
//! - [`codec`] maps claims payloads to signed compact tokens and back, with
//!   an exact round-trip contract over the outside signing primitive.
//! - [`claims`] states what an application claims type must supply, and
//!   ships a minimal subject record satisfying it.
//! - [`middleware`] composes the pipeline stages: the issuer-context
//!   carrier, the validating guard, and the helper that wraps an arbitrary
//!   operation so that it requires a valid token.
//! - [`error`] is the taxonomy of typed failures; nothing here panics on
//!   attacker-controlled input.

pub mod claims;
pub mod codec;
pub mod config;
pub mod error;
pub mod middleware;

pub use config::Algorithm;
pub use config::HeaderConfig;
pub use config::JWTConfig;
pub use config::ValidationConfig;
pub use claims::JWTClaims;
pub use claims::SubjectClaims;
pub use error::ErrorKind;
pub use error::JWTError;
pub use middleware::GuardedHandler;
pub use middleware::Handler;
pub use middleware::JWTMiddleware;
pub use middleware::JWTValidateMiddleware;
pub use middleware::RecordingHandler;
pub use middleware::RequestContext;
