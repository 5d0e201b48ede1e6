use vstd::prelude::*;

verus! {

/// Identity-provider information carried inside a claim set: for each
/// provider, the identifiers it knows the user by, and the name of the
/// provider used for this sign-in. Passed through unvalidated.
#[derive(Debug)]
pub struct FirebaseIdentities {
    pub identities: Option<Vec<(String, Vec<String>)>>,
    pub sign_in_provider: Option<String>,
}

/// The decoded, verified payload of an accepted token. A value of this type
/// is only ever built from a payload that passed the signature and claim
/// checks; validation never yields a partially filled claim set.
#[derive(Debug)]
pub struct FirebaseClaims {
    /// Expiration timestamp in epoch seconds; the token is invalid once the
    /// current time reaches it.
    pub exp: usize,
    pub iat: Option<usize>,
    pub aud: Option<String>,
    pub iss: Option<String>,
    pub sub: Option<String>,
    pub auth_time: Option<usize>,
    pub name: Option<String>,
    pub picture: Option<String>,
    pub email: Option<String>,
    pub email_verified: Option<bool>,
    pub user_id: Option<String>,
    pub firebase: Option<FirebaseIdentities>,
}

impl FirebaseClaims {
    /// The expiration rule: a claim set is expired at `now` exactly when
    /// `now` has reached its expiration timestamp.
    pub fn is_expired_at(&self, now: usize) -> (r: bool)
        ensures
            r == (self.exp <= now),
    {
        self.exp <= now
    }
}

} // verus!
