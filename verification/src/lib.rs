//! Validation of RSA-256-signed identity tokens against a provider's
//! published key set.
//!
//! The validator holds three configuration strings: the expected audience,
//! the expected issuer, and the URL of the provider's public-key document.
//! Checking a token proceeds in fixed order: read the key identifier from
//! the token header, obtain the current key set, select the matching key
//! record, and run the combined RSA-256 signature and claim check. The
//! network fetch itself is left to the caller; this crate decides what to
//! fetch, how to interpret the response, and whether the token is accepted.

pub mod claims;
pub mod error;
pub mod keys;
pub mod token;

pub use claims::FirebaseClaims;
pub use claims::FirebaseIdentities;
pub use error::ValidationError;
pub use keys::KeyRecord;
pub use keys::KeySet;
pub use keys::key_set_from_response;
pub use keys::parse_key_set;
pub use token::TokenValidator;
pub use token::extract_key_id;
