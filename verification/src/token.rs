use vstd::prelude::*;

use crate::error::ValidationError;
use crate::keys::KeySet;
use crate::keys::spec_find_key;
use crate::keys::spec_member;

verus! {

/// What the token's header declares, as a function of the token text alone:
/// `Err(diagnostic)` when the token does not split into three base64url
/// segments with a well-formed header, otherwise `Ok` with the declared key
/// identifier, if the header carries one.
pub uninterp spec fn header_kid_of(token: Seq<char>) -> Result<Option<Seq<char>>, Seq<char>>;

/// The view of a header-decode outcome, for stating what the decode
/// returned.
spec fn kid_outcome_view(r: Result<Option<String>, String>) -> Result<
    Option<Seq<char>>,
    Seq<char>,
> {
    match r {
        Ok(Some(kid)) => Ok(Some(kid@)),
        Ok(None) => Ok(None),
        Err(detail) => Err(detail@),
    }
}

/// Relies on jsonwebtoken::decode_header: splits the token on `.` into
/// exactly three segments, base64url-decodes the header segment and parses
/// it as JSON, without touching the signature. The outcome is a function of
/// the token text alone.
#[verifier::external_body]
fn decode_header_kid(token: &str) -> (r: Result<Option<String>, String>)
    ensures
        kid_outcome_view(r) == header_kid_of(token@),
{
    match jsonwebtoken::decode_header(token) {
        Ok(header) => Ok(header.kid),
        Err(err) => Err(err.to_string()),
    }
}

/// Read the key identifier that the token's header declares, without
/// verifying anything else. A token that does not parse, or whose header
/// lacks a key identifier, is malformed input; no key-set fetch is needed
/// to decide that.
pub fn extract_key_id(token: &str) -> (r: Result<String, ValidationError>)
    ensures
        match header_kid_of(token@) {
            Ok(Some(kid)) => r matches Ok(found) && found@ == kid,
            Ok(None) => r matches Err(e) && e matches ValidationError::MalformedInput {
                detail,
            } && detail@ == "the token header did not contain a Key ID"@,
            Err(diagnostic) => r matches Err(e) && e matches ValidationError::MalformedInput {
                detail,
            } && detail@ == diagnostic,
        },
{
    match decode_header_kid(token) {
        Ok(Some(kid)) => Ok(kid),
        Ok(None) => Err(
            ValidationError::new("the token header did not contain a Key ID".to_owned()),
        ),
        Err(detail) => Err(ValidationError::MalformedInput { detail }),
    }
}

/// What the combined RSA-256 check accepts, as a function of its inputs
/// alone: the canonical claims document of the token, when the signature
/// verifies under the key `(n, e)`, the declared algorithm is RSA-256, the
/// payload parses and carries the expiration, audience and issuer claims,
/// and the audience and issuer equal the expected values; `None` when any
/// of those checks declines, the expiration claim included only by its
/// presence. The expiration comparison itself consults the clock, so
/// acceptance at run time can still fail where this function is defined.
pub uninterp spec fn rs256_accepts(
    token: Seq<char>,
    n: Seq<char>,
    e: Seq<char>,
    aud: Seq<char>,
    iss: Seq<char>,
) -> Option<Seq<char>>;

/// Relies on jsonwebtoken::decode with an RSA-256 validation policy built
/// from the expected audience and issuer, the expiration, audience and
/// issuer claims all required to be present, expiration checked with no
/// leeway, and the decoding key taken from the base64url RSA components
/// `(n, e)`. On success the decoded payload is handed back as its canonical
/// JSON text. Apart from the expiration comparison, which reads the clock,
/// the outcome is a function of the arguments alone; so an `Ok` pins the
/// payload down, while an `Err` may also be the clock's doing. Boundary of
/// that comparison: the crypto library rejects an expiration strictly
/// before the clock's current second, so a token expiring exactly now still
/// passes it; `FirebaseClaims::is_expired_at` states the stricter rule.
#[verifier::external_body]
fn decode_rs256(token: &str, n: &str, e: &str, aud: &str, iss: &str) -> (r: Result<String, String>)
    ensures
        r matches Ok(payload) ==> Some(payload@) == rs256_accepts(token@, n@, e@, aud@, iss@),
{
    let key = match jsonwebtoken::DecodingKey::from_rsa_components(n, e) {
        Ok(key) => key,
        Err(err) => return Err(err.to_string()),
    };
    let mut policy = jsonwebtoken::Validation::new(jsonwebtoken::Algorithm::RS256);
    policy.set_audience(&[aud]);
    policy.set_issuer(&[iss]);
    policy.set_required_spec_claims(&["exp", "aud", "iss"]);
    policy.leeway = 0;
    match jsonwebtoken::decode::<serde_json::Value>(token, &key, &policy) {
        Ok(data) => Ok(data.claims.to_string()),
        Err(err) => Err(err.to_string()),
    }
}

/// The trust policy a validator enforces: tokens must target this audience,
/// come from this issuer, and be signed by a key published at this URL.
/// The three strings are fixed at construction and shared read-only.
#[derive(Clone)]
pub struct TokenValidator {
    pub firebase_project_id: String,
    pub firebase_project_issuer: String,
    pub firebase_public_keys_jwk_url: String,
}

/// Everything validation decides once the key set is in hand, phase by
/// phase: a malformed header is reported as such whatever the key set
/// holds; a key identifier absent from the key set ends the scan with
/// SigningKeyNotFound;
/// a matching record without RSA components is a key-set format failure;
/// and the combined RSA-256 check either pins the accepted payload or
/// declines with TokenRejected. When the check accepts, the call may still
/// answer TokenRejected, since expiration is measured against the clock.
pub open spec fn spec_validate_post(
    aud: Seq<char>,
    iss: Seq<char>,
    token: Seq<char>,
    keys: Seq<Seq<(Seq<char>, Seq<char>)>>,
    r: Result<String, ValidationError>,
) -> bool {
    match header_kid_of(token) {
        Err(diagnostic) => r matches Err(e) && e matches ValidationError::MalformedInput {
            detail,
        } && detail@ == diagnostic,
        Ok(None) => r matches Err(e) && e is MalformedInput,
        Ok(Some(kid)) => match spec_find_key(keys, kid) {
            None => r matches Err(e) && e is SigningKeyNotFound,
            Some(record) => match (spec_member(record, "n"@), spec_member(record, "e"@)) {
                (Some(n), Some(e)) => match rs256_accepts(token, n, e, aud, iss) {
                    Some(payload) => (r matches Ok(body) && body@ == payload) || (
                    r matches Err(err)
                        && err is TokenRejected),
                    None => r matches Err(err) && err is TokenRejected,
                },
                _ => r matches Err(err) && err is KeySetFormatFailure,
            },
        },
    }
}

impl TokenValidator {
    /// Check one token against this validator's policy, using an already
    /// fetched key set: read the declared key identifier, select the first
    /// matching key record, and run the combined RSA-256 signature and
    /// claim check under that key. On acceptance the verified payload is
    /// returned as its canonical JSON text.
    pub fn validate_with_key_set(&self, token: &str, keys: &KeySet) -> (r: Result<
        String,
        ValidationError,
    >)
        ensures
            spec_validate_post(
                self.firebase_project_id@,
                self.firebase_project_issuer@,
                token@,
                keys@,
                r,
            ),
    {
        let kid = match extract_key_id(token) {
            Ok(kid) => kid,
            Err(e) => return Err(e),
        };
        let record = match keys.find_record(&kid) {
            Some(record) => record,
            None => return Err(ValidationError::SigningKeyNotFound),
        };
        let n_name: String = "n".to_owned();
        let e_name: String = "e".to_owned();
        let modulus = match record.field(&n_name) {
            Some(value) => value,
            None => {
                return Err(
                    ValidationError::KeySetFormatFailure {
                        detail: "the selected key record has no RSA modulus".to_owned(),
                    },
                );
            },
        };
        let exponent = match record.field(&e_name) {
            Some(value) => value,
            None => {
                return Err(
                    ValidationError::KeySetFormatFailure {
                        detail: "the selected key record has no RSA exponent".to_owned(),
                    },
                );
            },
        };
        match decode_rs256(
            token,
            modulus.as_str(),
            exponent.as_str(),
            self.firebase_project_id.as_str(),
            self.firebase_project_issuer.as_str(),
        ) {
            Ok(payload) => Ok(payload),
            Err(detail) => Err(ValidationError::TokenRejected { detail }),
        }
    }
}

/// Law: validation is deterministic on acceptance. Two calls with the same
/// policy, the same token and an unchanged key set that both accept yield
/// the same claims document.
pub proof fn lemma_validate_deterministic(
    aud: Seq<char>,
    iss: Seq<char>,
    token: Seq<char>,
    keys: Seq<Seq<(Seq<char>, Seq<char>)>>,
    r1: Result<String, ValidationError>,
    r2: Result<String, ValidationError>,
)
    requires
        spec_validate_post(aud, iss, token, keys, r1),
        spec_validate_post(aud, iss, token, keys, r2),
        r1 is Ok,
        r2 is Ok,
    ensures
        r1->Ok_0@ == r2->Ok_0@,
{
}

/// Law: a token whose declared key identifier is absent from the key set is
/// turned away with SigningKeyNotFound, whatever its signature would have
/// verified as.
pub proof fn lemma_unknown_kid_not_found(
    aud: Seq<char>,
    iss: Seq<char>,
    token: Seq<char>,
    keys: Seq<Seq<(Seq<char>, Seq<char>)>>,
    kid: Seq<char>,
    r: Result<String, ValidationError>,
)
    requires
        spec_validate_post(aud, iss, token, keys, r),
        header_kid_of(token) == Ok::<Option<Seq<char>>, Seq<char>>(Some(kid)),
        spec_find_key(keys, kid) is None,
    ensures
        r matches Err(e) && e is SigningKeyNotFound,
{
}

/// Law: when the combined RSA-256 check declines the token under the
/// selected key — wrong signature, wrong audience or wrong issuer — the
/// answer is TokenRejected.
pub proof fn lemma_declined_token_rejected(
    aud: Seq<char>,
    iss: Seq<char>,
    token: Seq<char>,
    keys: Seq<Seq<(Seq<char>, Seq<char>)>>,
    kid: Seq<char>,
    record: Seq<(Seq<char>, Seq<char>)>,
    n: Seq<char>,
    e: Seq<char>,
    r: Result<String, ValidationError>,
)
    requires
        spec_validate_post(aud, iss, token, keys, r),
        header_kid_of(token) == Ok::<Option<Seq<char>>, Seq<char>>(Some(kid)),
        spec_find_key(keys, kid) == Some(record),
        spec_member(record, "n"@) == Some(n),
        spec_member(record, "e"@) == Some(e),
        rs256_accepts(token, n, e, aud, iss) is None,
    ensures
        r matches Err(err) && err is TokenRejected,
{
}

/// Law: a malformed token is reported as malformed input whatever key set
/// was fetched; no key set can rescue it, so the fetch need never happen.
pub proof fn lemma_malformed_input_first(
    aud: Seq<char>,
    iss: Seq<char>,
    token: Seq<char>,
    keys: Seq<Seq<(Seq<char>, Seq<char>)>>,
    r: Result<String, ValidationError>,
)
    requires
        spec_validate_post(aud, iss, token, keys, r),
        header_kid_of(token) is Err || header_kid_of(token) == Ok::<
            Option<Seq<char>>,
            Seq<char>,
        >(None),
    ensures
        r matches Err(e) && e is MalformedInput,
{
}

/// Law: an accepted call answers exactly the claims document that the
/// combined RSA-256 check pinned for the selected key.
pub proof fn lemma_accepted_payload_exact(
    aud: Seq<char>,
    iss: Seq<char>,
    token: Seq<char>,
    keys: Seq<Seq<(Seq<char>, Seq<char>)>>,
    kid: Seq<char>,
    record: Seq<(Seq<char>, Seq<char>)>,
    n: Seq<char>,
    e: Seq<char>,
    r: Result<String, ValidationError>,
)
    requires
        spec_validate_post(aud, iss, token, keys, r),
        header_kid_of(token) == Ok::<Option<Seq<char>>, Seq<char>>(Some(kid)),
        spec_find_key(keys, kid) == Some(record),
        spec_member(record, "n"@) == Some(n),
        spec_member(record, "e"@) == Some(e),
        r is Ok,
    ensures
        rs256_accepts(token, n, e, aud, iss) == Some(r->Ok_0@),
{
}

} // verus!
