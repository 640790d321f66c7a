//! What holds of the interceptor as a whole.
//!
//! Each function here states one law over the same spec functions that the
//! contracts of the executable functions use, and proves it.

use vstd::prelude::*;
use vstd::utf8::is_ascii_chars;

use alcoholic_jwt::JWK;
use serde_json::Value;

use crate::auth::bearer::{bearer_credentials, scheme, scheme_end, scheme_start, token_end, token_start};
use crate::auth::claims::{claims_of, PrincipalView};
use crate::auth::interceptor::{AuthError, Interceptor, OutcomeView};
use crate::auth::keys::{first_with_kid, jwk_kid, lemma_first_with_kid};
use crate::auth::text::{has_no_blank, is_blank, skip_blanks, skip_word};
use crate::auth::token::parsed;
use crate::auth::validate::{failed_check, first_failure, signed_claims, unexpired, validated, Check};


verus! {

/// A run of characters without a blank, closed by a blank or by the end of
/// the text, is one word.
pub proof fn lemma_word_run(s: Seq<char>, from: int, end: int)
    requires
        0 <= from <= end <= s.len(),
        forall|i: int| from <= i < end ==> !is_blank(#[trigger] s[i]),
        end == s.len() || is_blank(s[end]),
    ensures
        skip_word(s, from) == end,
    decreases end - from,
{
    if from < end {
        lemma_word_run(s, from + 1, end);
    }
}

/// A header value made of one word, one space and a token carries the token
/// exactly where the word is the scheme in its one accepted spelling.
pub proof fn lemma_scheme_and_token(word: Seq<char>, token: Seq<char>)
    requires
        is_ascii_chars(word),
        is_ascii_chars(token),
        has_no_blank(word),
        has_no_blank(token),
        word.len() > 0,
        token.len() > 0,
    ensures
        bearer_credentials(word + seq![' '] + token) == if word == scheme() {
            Some(token)
        } else {
            None
        },
{
    let header = word + seq![' '] + token;
    let w = word.len() as int;
    assert(header.len() == w + 1 + token.len());
    assert forall|i: int| 0 <= i < w implies header[i] == word[i] by {}
    assert(header[w] == ' ');
    assert forall|i: int| w + 1 <= i < header.len() implies header[i] == token[i - w - 1] by {}
    assert(!is_blank(word[0]));
    assert(scheme_start(header) == 0);
    assert forall|i: int| 0 <= i < w implies !is_blank(#[trigger] header[i]) by {
        assert(!is_blank(word[i]));
    }
    lemma_word_run(header, 0, w);
    assert(scheme_end(header) == w);
    assert(!is_blank(token[0]));
    assert(header[w + 1] == token[0]);
    assert(skip_blanks(header, w + 1) == w + 1);
    assert(token_start(header) == w + 1);
    assert forall|i: int| w + 1 <= i < header.len() implies !is_blank(#[trigger] header[i]) by {
        assert(!is_blank(token[i - w - 1]));
    }
    lemma_word_run(header, w + 1, header.len() as int);
    assert(token_end(header) == header.len());
    assert(header.subrange(0, w) =~= word);
    assert(header.subrange(w + 1, header.len() as int) =~= token);
    assert forall|i: int| 0 <= i < header.len() implies '\0' <= #[trigger] header[i] <= '\u{7f}' by {
        if i < w {
            assert(header[i] == word[i]);
        } else if i > w {
            assert(header[i] == token[i - w - 1]);
        }
    }
}

/// The text of a header value with the given scheme word, one space and the
/// token.
pub open spec fn header_of(word: Seq<char>, token: Seq<char>) -> Seq<char> {
    word + seq![' '] + token
}

/// The scheme is case sensitive: a header that spells it `bearer` is
/// rejected whatever its token is, and a header that spells it `Bearer` fares
/// as its token does.
pub proof fn scheme_is_case_sensitive(interceptor: Interceptor, token: Seq<char>, now: u64)
    requires
        is_ascii_chars(token),
        has_no_blank(token),
        token.len() > 0,
    ensures
        interceptor.decision(Some(header_of("bearer"@, token)), now) == OutcomeView::Reject,
        interceptor.decision(Some(header_of("Bearer"@, token)), now) == match interceptor.authenticated(
            token,
            now,
        ) {
            Ok(principal) => OutcomeView::Forward(Some(principal)),
            Err(_) => OutcomeView::Reject,
        },
{
    reveal_strlit("bearer");
    reveal_strlit("Bearer");
    assert("bearer"@[0] == 'b');
    assert("Bearer"@[0] == 'B');
    assert("bearer"@ != "Bearer"@);
    lemma_scheme_and_token("bearer"@, token);
    lemma_scheme_and_token("Bearer"@, token);
}

/// A call without the header goes on, and no principal is attached to it.
pub proof fn missing_header_is_forwarded(interceptor: Interceptor, now: u64)
    ensures
        interceptor.decision(None, now) == OutcomeView::Forward(None),
{
}

/// Round trip: a token that parses, names a key of the set and verifies
/// under it, whose claims name the expected issuer and audience, a subject
/// that is not empty and an expiry that is not reached, authenticates the
/// principal of exactly that subject and exactly the token's permissions.
pub proof fn round_trip(
    interceptor: Interceptor,
    token: Seq<char>,
    key: JWK,
    claims: Value,
    now: u64,
    subject: Seq<char>,
    permissions: Seq<Seq<char>>,
)
    requires
        parsed(token) is Some,
        first_with_kid(interceptor.keys(), parsed(token).unwrap().kid) == Some(key),
        signed_claims(token, key) == Some(claims),
        claims_of(claims).issuer == Some(interceptor.issuer()),
        claims_of(claims).audience.contains(interceptor.audience()),
        claims_of(claims).subject == Some(subject),
        subject.len() > 0,
        claims_of(claims).permissions == permissions,
        claims_of(claims).expires_at is Some,
        unexpired(claims_of(claims).expires_at.unwrap(), now, interceptor.tolerance()),
    ensures
        interceptor.authenticated(token, now) == Ok::<PrincipalView, AuthError>(
            PrincipalView { subject, permissions },
        ),
        has_no_blank(token) ==> interceptor.decision(Some(header_of("Bearer"@, token)), now)
            == OutcomeView::Forward(Some(PrincipalView { subject, permissions })),
{
    if has_no_blank(token) {
        assert(token.len() > 0);
        scheme_is_case_sensitive(interceptor, token, now);
    }
}

/// Nothing is let through on less than a valid token: where a call with the
/// header goes on with a principal, the header carries a token that parses,
/// names a key of the set, verifies under that key and claims the expected
/// issuer and audience, an expiry that is not reached, and the subject and
/// permissions of that very principal, with a subject that is not empty.
pub proof fn forwarded_principal_is_proved(
    interceptor: Interceptor,
    header: Seq<char>,
    now: u64,
    principal: PrincipalView,
)
    requires
        interceptor.decision(Some(header), now) == OutcomeView::Forward(Some(principal)),
    ensures
        bearer_credentials(header) is Some,
        parsed(bearer_credentials(header).unwrap()) is Some,
        ({
            let token = bearer_credentials(header).unwrap();
            let key = first_with_kid(interceptor.keys(), parsed(token).unwrap().kid);
            &&& key is Some
            &&& interceptor.keys().contains(key.unwrap())
            &&& jwk_kid(key.unwrap()) == Some(parsed(token).unwrap().kid)
            &&& signed_claims(token, key.unwrap()) is Some
            &&& ({
                let claims = claims_of(signed_claims(token, key.unwrap()).unwrap());
                &&& claims.issuer == Some(interceptor.issuer())
                &&& claims.audience.contains(interceptor.audience())
                &&& claims.subject == Some(principal.subject)
                &&& principal.subject.len() > 0
                &&& claims.permissions == principal.permissions
                &&& claims.expires_at is Some
                &&& unexpired(claims.expires_at.unwrap(), now, interceptor.tolerance())
            })
        }),
{
    let token = bearer_credentials(header).unwrap();
    lemma_first_with_kid(interceptor.keys(), parsed(token).unwrap().kid);
}

/// A token that authenticates at one instant authenticates the same
/// principal at every earlier instant: time only ever takes a token's
/// validity away.
pub proof fn earlier_is_no_worse(
    interceptor: Interceptor,
    token: Seq<char>,
    now: u64,
    earlier: u64,
)
    requires
        earlier <= now,
        interceptor.authenticated(token, now) is Ok,
    ensures
        interceptor.authenticated(token, earlier) == interceptor.authenticated(token, now),
{
}

/// Expiry boundary: of a token that is valid in everything else, the one
/// whose expiry, moved out by the tolerance, is not after the validation
/// instant is rejected, and the one whose expiry is after it is accepted. With
/// no tolerance, an expiry one second before the instant is rejected and one
/// an hour after it is accepted.
pub proof fn expiry_boundary(
    interceptor: Interceptor,
    token: Seq<char>,
    key: JWK,
    claims: Value,
    now: u64,
)
    requires
        parsed(token) is Some,
        first_with_kid(interceptor.keys(), parsed(token).unwrap().kid) == Some(key),
        signed_claims(token, key) == Some(claims),
        claims_of(claims).issuer == Some(interceptor.issuer()),
        claims_of(claims).audience.contains(interceptor.audience()),
        claims_of(claims).subject is Some,
        claims_of(claims).subject.unwrap().len() > 0,
        claims_of(claims).expires_at is Some,
    ensures
        claims_of(claims).expires_at.unwrap() + interceptor.tolerance() <= now
            ==> interceptor.authenticated(token, now) == Err::<PrincipalView, AuthError>(
            AuthError::Invalid,
        ),
        claims_of(claims).expires_at.unwrap() + interceptor.tolerance() > now
            ==> interceptor.authenticated(token, now) is Ok,
        interceptor.tolerance() == 0 && claims_of(claims).expires_at.unwrap() == now - 1
            ==> interceptor.authenticated(token, now) is Err,
        interceptor.tolerance() == 0 && claims_of(claims).expires_at.unwrap() == now + 3600
            ==> interceptor.authenticated(token, now) is Ok,
{
}

/// Unknown key: a token whose header names a key identifier that no key of
/// the set declares is rejected, whatever its claims and its signature are.
pub proof fn unknown_key_is_rejected(
    interceptor: Interceptor,
    header: Seq<char>,
    token: Seq<char>,
    now: u64,
)
    requires
        parsed(token) is Some,
        forall|i: int|
            0 <= i < interceptor.keys().len() ==> jwk_kid(#[trigger] interceptor.keys()[i]) != Some(
                parsed(token).unwrap().kid,
            ),
        bearer_credentials(header) == Some(token),
    ensures
        interceptor.authenticated(token, now) == Err::<PrincipalView, AuthError>(
            AuthError::UnknownKey,
        ),
        interceptor.decision(Some(header), now) == OutcomeView::Reject,
{
    lemma_first_with_kid(interceptor.keys(), parsed(token).unwrap().kid);
}

/// Issuer and audience: a token whose claims do not name the expected issuer,
/// or do not list the expected audience, is rejected, however well it is
/// signed and however far off its expiry is.
pub proof fn mismatch_is_rejected(
    interceptor: Interceptor,
    header: Seq<char>,
    token: Seq<char>,
    key: JWK,
    claims: Value,
    now: u64,
)
    requires
        parsed(token) is Some,
        first_with_kid(interceptor.keys(), parsed(token).unwrap().kid) == Some(key),
        signed_claims(token, key) == Some(claims),
        claims_of(claims).issuer != Some(interceptor.issuer()) || !claims_of(
            claims,
        ).audience.contains(interceptor.audience()),
        bearer_credentials(header) == Some(token),
    ensures
        interceptor.authenticated(token, now) == Err::<PrincipalView, AuthError>(
            AuthError::Invalid,
        ),
        interceptor.decision(Some(header), now) == OutcomeView::Reject,
{
}

/// The checks run in their order: a token is validated exactly where no
/// check fails, and the check that is reported is the first in the order
/// signature, issuer, audience, subject, expiry that does not pass.
pub proof fn checks_run_in_order(
    token: Seq<char>,
    key: JWK,
    issuer: Seq<char>,
    audience: Seq<char>,
    now: u64,
    tolerance: u64,
)
    ensures
        validated(token, key, issuer, audience, now, tolerance) is Some <==> failed_check(
            token,
            key,
            issuer,
            audience,
            now,
            tolerance,
        ) is None,
        failed_check(token, key, issuer, audience, now, tolerance) == Some(Check::Signature)
            <==> signed_claims(token, key) is None,
        signed_claims(token, key) matches Some(value) ==> {
            let claims = claims_of(value);
            let failure = first_failure(claims, issuer, audience, now, tolerance);
            &&& failure == Some(Check::Issuer) <==> claims.issuer != Some(issuer)
            &&& failure == Some(Check::Audience) <==> claims.issuer == Some(issuer)
                && !claims.audience.contains(audience)
            &&& failure == Some(Check::Subject) ==> claims.issuer == Some(issuer)
                && claims.audience.contains(audience)
            &&& failure == Some(Check::Expiry) ==> claims.issuer == Some(issuer)
                && claims.audience.contains(audience) && claims.subject is Some
            &&& failure != Some(Check::Signature)
        },
{
}

} // verus!
