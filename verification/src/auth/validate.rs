//! Validation of a parsed token against a key and the expected claims.
//!
//! The signature is verified first, with the algorithm that the key itself
//! declares. Then the claims are checked in a fixed order: issuer, audience,
//! subject, expiry. Whatever fails, the caller learns only that the token is
//! invalid.

use vstd::prelude::*;

use alcoholic_jwt::{ValidationError, JWK};
use serde_json::Value;

use crate::auth::claims::{claims_of, ClaimSet, ClaimSetView, ClaimValues, DecodedClaims};
use crate::auth::json::views;
use crate::auth::token::ParsedToken;

verus! {

/// The decoded claims of `token` where its signature verifies under `key`;
/// nothing where the token does not verify or its claims do not decode.
pub uninterp spec fn signed_claims(token: Seq<char>, key: JWK) -> Option<Value>;

/// `alcoholic_jwt::validate` with no claim validations asked for. It verifies
/// the signature segment over the text before the last dot, with the
/// algorithm that belongs to the key and without regard to the algorithm that
/// the header declares, then decodes the claims segment from base64url and
/// JSON. The outcome is a function of the token's text and the key alone.
#[verifier::external_body]
fn verify_signature(token: &str, key: &JWK) -> (claims: Result<Value, ValidationError>)
    ensures
        match claims {
            Ok(c) => signed_claims(token@, *key) == Some(c),
            Err(_) => signed_claims(token@, *key) is None,
        },
{
    match alcoholic_jwt::validate(token, key, Vec::new()) {
        Ok(valid) => Ok(valid.claims),
        Err(e) => Err(e),
    }
}

/// The token did not pass validation. Which check failed is not told.
#[derive(Debug, Clone, Copy, PartialEq, Eq)]
pub struct Invalid;

/// The claim values that a token must carry to be accepted.
#[derive(Debug, Clone)]
pub struct Expected {
    /// The issuer that tokens must name, compared verbatim.
    pub issuer: String,
    /// The audience that tokens must be meant for, compared verbatim.
    pub audience: String,
}

/// The checks that a token goes through, in their order.
#[derive(Debug, Clone, Copy, PartialEq, Eq, Structural)]
pub enum Check {
    Signature,
    Issuer,
    Audience,
    Subject,
    Expiry,
}

/// Whether a token that expires at `expires_at` is still good at `now`: its
/// expiry, moved out by the tolerance, lies strictly in the future.
pub open spec fn unexpired(expires_at: u64, now: u64, tolerance: u64) -> bool {
    expires_at + tolerance > now
}

/// The first check on the claims that fails, or none where all pass: the
/// issuer is the expected one, the expected audience is among the audiences,
/// the subject is present and not empty, and the expiry is present and not
/// reached.
pub open spec fn first_failure(
    claims: ClaimValues,
    issuer: Seq<char>,
    audience: Seq<char>,
    now: u64,
    tolerance: u64,
) -> Option<Check> {
    if claims.issuer != Some(issuer) {
        Some(Check::Issuer)
    } else if !claims.audience.contains(audience) {
        Some(Check::Audience)
    } else if claims.subject is None || claims.subject.unwrap().len() == 0 {
        Some(Check::Subject)
    } else if claims.expires_at is None || !unexpired(claims.expires_at.unwrap(), now, tolerance) {
        Some(Check::Expiry)
    } else {
        None
    }
}

/// The claim set that the claims make where every check passes.
pub open spec fn accepted(
    claims: ClaimValues,
    issuer: Seq<char>,
    audience: Seq<char>,
    now: u64,
    tolerance: u64,
) -> Option<ClaimSetView> {
    if first_failure(claims, issuer, audience, now, tolerance) is None {
        Some(
            ClaimSetView {
                subject: claims.subject.unwrap(),
                issuer: claims.issuer.unwrap(),
                audience: claims.audience,
                expires_at: claims.expires_at.unwrap(),
                permissions: claims.permissions,
            },
        )
    } else {
        None
    }
}

/// The first check that `token` fails under `key`, the signature included.
pub open spec fn failed_check(
    token: Seq<char>,
    key: JWK,
    issuer: Seq<char>,
    audience: Seq<char>,
    now: u64,
    tolerance: u64,
) -> Option<Check> {
    match signed_claims(token, key) {
        Some(value) => first_failure(claims_of(value), issuer, audience, now, tolerance),
        None => Some(Check::Signature),
    }
}

/// The claim set of `token` where its signature verifies under `key` and its
/// claims pass every check; nothing otherwise.
pub open spec fn validated(
    token: Seq<char>,
    key: JWK,
    issuer: Seq<char>,
    audience: Seq<char>,
    now: u64,
    tolerance: u64,
) -> Option<ClaimSetView> {
    match signed_claims(token, key) {
        Some(value) => accepted(claims_of(value), issuer, audience, now, tolerance),
        None => None,
    }
}

/// Whether `wanted` is among `list`.
fn lists(list: &Vec<String>, wanted: &String) -> (found: bool)
    ensures
        found == views(list@).contains(wanted@),
{
    let mut i: usize = 0;
    while i < list.len()
        invariant
            i <= list@.len(),
            forall|j: int| 0 <= j < i ==> list@[j]@ != wanted@,
        decreases list@.len() - i,
    {
        if list[i] == *wanted {
            assert(views(list@)[i as int] == wanted@);
            return true;
        }
        i += 1;
    }
    false
}

/// Whether a token that expires at `expires_at` is still good at `now`.
pub fn is_unexpired(expires_at: u64, now: u64, tolerance: u64) -> (good: bool)
    ensures
        good == unexpired(expires_at, now, tolerance),
{
    match expires_at.checked_add(tolerance) {
        Some(limit) => limit > now,
        None => true,
    }
}

/// Runs the checks on decoded claims in their order and names the first that
/// fails.
pub fn check_claims(claims: &DecodedClaims, expected: &Expected, now: u64, tolerance: u64) -> (failure:
    Option<Check>)
    ensures
        failure == first_failure(claims@, expected.issuer@, expected.audience@, now, tolerance),
{
    let issuer_matches = match &claims.issuer {
        Some(issuer) => *issuer == expected.issuer,
        None => false,
    };
    if !issuer_matches {
        return Some(Check::Issuer);
    }
    if !lists(&claims.audience, &expected.audience) {
        return Some(Check::Audience);
    }
    let subject_present = match &claims.subject {
        Some(subject) => !subject.as_str().is_empty(),
        None => false,
    };
    if !subject_present {
        return Some(Check::Subject);
    }
    let in_time = match claims.expires_at {
        Some(expires_at) => is_unexpired(expires_at, now, tolerance),
        None => false,
    };
    if !in_time {
        return Some(Check::Expiry);
    }
    None
}

/// Checks the decoded claims of a token whose signature has been verified,
/// and makes the claim set of those that pass.
pub fn validate_claims(value: &Value, expected: &Expected, now: u64, tolerance: u64) -> (claims:
    Result<ClaimSet, Invalid>)
    ensures
        match claims {
            Ok(set) => accepted(
                claims_of(*value),
                expected.issuer@,
                expected.audience@,
                now,
                tolerance,
            ) == Some(set@),
            Err(_) => accepted(
                claims_of(*value),
                expected.issuer@,
                expected.audience@,
                now,
                tolerance,
            ) is None,
        },
{
    let decoded = DecodedClaims::decode(value);
    if check_claims(&decoded, expected, now, tolerance).is_some() {
        return Err(Invalid);
    }
    match (decoded.subject, decoded.issuer, decoded.expires_at) {
        (Some(subject), Some(issuer), Some(expires_at)) => Ok(
            ClaimSet {
                subject,
                issuer,
                audience: decoded.audience,
                expires_at,
                permissions: decoded.permissions,
            },
        ),
        _ => Err(Invalid),
    }
}

/// Names the first check that a parsed token fails under `key`, in the order
/// signature, issuer, audience, subject, expiry; none where it passes all.
pub fn first_failed_check(
    token: &ParsedToken,
    key: &JWK,
    expected: &Expected,
    now: u64,
    tolerance: u64,
) -> (failure: Option<Check>)
    ensures
        failure == failed_check(
            token@.compact(),
            *key,
            expected.issuer@,
            expected.audience@,
            now,
            tolerance,
        ),
{
    let compact = token.compact();
    match verify_signature(compact.as_str(), key) {
        Ok(value) => {
            let decoded = DecodedClaims::decode(&value);
            check_claims(&decoded, expected, now, tolerance)
        },
        Err(_) => Some(Check::Signature),
    }
}

/// Validates a parsed token: verifies its signature under `key`, then checks
/// issuer, audience, subject and expiry, stopping at the first failure.
///
/// `now` is the validation instant and `tolerance` the clock skew that is
/// tolerated, both in seconds.
pub fn validate(
    token: &ParsedToken,
    key: &JWK,
    expected: &Expected,
    now: u64,
    tolerance: u64,
) -> (claims: Result<ClaimSet, Invalid>)
    ensures
        match claims {
            Ok(set) => validated(
                token@.compact(),
                *key,
                expected.issuer@,
                expected.audience@,
                now,
                tolerance,
            ) == Some(set@),
            Err(_) => validated(
                token@.compact(),
                *key,
                expected.issuer@,
                expected.audience@,
                now,
                tolerance,
            ) is None,
        },
{
    let compact = token.compact();
    match verify_signature(compact.as_str(), key) {
        Ok(value) => validate_claims(&value, expected, now, tolerance),
        Err(_) => Err(Invalid),
    }
}

} // verus!
