use vstd::prelude::*;

verus! {

/// Why a token was not accepted. Every failure of validation is one of these
/// five kinds; each carries the underlying diagnostic where one is available.
#[derive(Debug)]
pub enum ValidationError {
    /// The token string itself is unusable: wrong segment shape, undecodable
    /// segments, or a header without a key identifier.
    MalformedInput { detail: String },
    /// The public-key document could not be fetched: network error, timeout,
    /// or a non-success HTTP status.
    TransportFailure { detail: String },
    /// The fetched body does not parse as the expected key-set shape, or the
    /// selected key record is missing its RSA components.
    KeySetFormatFailure { detail: String },
    /// No key record in the fetched set carries the token's key identifier.
    SigningKeyNotFound,
    /// The signature, expiration, audience or issuer check declined the
    /// token.
    TokenRejected { detail: String },
}

impl ValidationError {
    /// A malformed-input failure with the given description.
    pub fn new(description: String) -> (r: ValidationError)
        ensures
            r == (ValidationError::MalformedInput { detail: description }),
    {
        ValidationError::MalformedInput { detail: description }
    }
}

} // verus!
