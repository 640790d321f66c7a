//! The set of verification keys that tokens are checked against.
//!
//! A key set is a snapshot: it is built once from the issuer's published
//! document and only read afterwards, so any number of requests may resolve
//! keys from it at the same time.

use std::sync::Arc;

use vstd::prelude::*;

use alcoholic_jwt::{JWK, JWKS};

verus! {

/// A single JSON Web Key of `alcoholic_jwt`, carried through as an opaque value.
#[verifier::external_type_specification]
#[verifier::external_body]
pub struct ExJwk(JWK);

/// A JSON Web Key Set of `alcoholic_jwt`, carried through as an opaque value.
#[verifier::external_type_specification]
#[verifier::external_body]
pub struct ExJwks(JWKS);

/// The keys that a key set holds, in the order of its document.
pub uninterp spec fn jwks_keys(set: JWKS) -> Seq<JWK>;

/// The key identifier that a key declares, if it declares one.
pub uninterp spec fn jwk_kid(key: JWK) -> Option<Seq<char>>;

/// The first key of `keys` that declares the identifier `kid`.
pub open spec fn first_with_kid(keys: Seq<JWK>, kid: Seq<char>) -> Option<JWK>
    decreases keys.len(),
{
    if keys.len() == 0 {
        None
    } else if jwk_kid(keys[0]) == Some(kid) {
        Some(keys[0])
    } else {
        first_with_kid(keys.drop_first(), kid)
    }
}

/// `JWKS::find`: walks the keys in order and hands out the first one whose
/// declared identifier equals `kid`, or nothing where no key declares it.
#[verifier::external_body]
fn jwks_find<'a>(set: &'a JWKS, kid: &str) -> (found: Option<&'a JWK>)
    ensures
        match found {
            Some(k) => first_with_kid(jwks_keys(*set), kid@) == Some(*k),
            None => first_with_kid(jwks_keys(*set), kid@) is None,
        },
        found matches Some(k) ==> jwk_kid(*k) == Some(kid@),
{
    set.find(kid)
}

/// No key of the set declares the identifier that was asked for.
#[derive(Debug, Clone, Copy, PartialEq, Eq)]
pub struct NotFound;

/// `Arc::clone`: one more handle on the same value.
#[verifier::external_body]
fn share(keys: &Arc<JWKS>) -> (handle: Arc<JWKS>)
    ensures
        *handle == **keys,
{
    Arc::clone(keys)
}

/// An immutable snapshot of verification keys, looked up by key identifier.
/// Its copies share the one snapshot.
pub struct KeySet {
    keys: Arc<JWKS>,
}

impl Clone for KeySet {
    fn clone(&self) -> (copy: Self)
        ensures
            copy.keys() == self.keys(),
    {
        KeySet { keys: share(&self.keys) }
    }
}

impl KeySet {
    /// The keys of the snapshot, in the order of the published document.
    pub closed spec fn keys(&self) -> Seq<JWK> {
        jwks_keys(*self.keys)
    }

    /// The key that `kid` resolves to: the first that declares it.
    pub open spec fn resolved(&self, kid: Seq<char>) -> Option<JWK> {
        first_with_kid(self.keys(), kid)
    }

    /// Takes a snapshot of the keys of `jwks`.
    pub fn new(jwks: JWKS) -> (set: KeySet)
        ensures
            set.keys() == jwks_keys(jwks),
    {
        KeySet { keys: Arc::new(jwks) }
    }

    /// Resolves a key identifier to the key that verifies tokens signed
    /// under it. The lookup reads the snapshot and changes nothing.
    pub fn resolve(&self, kid: &str) -> (found: Result<&JWK, NotFound>)
        ensures
            match found {
                Ok(key) => self.resolved(kid@) == Some(*key),
                Err(_) => self.resolved(kid@) is None,
            },
    {
        match jwks_find(&self.keys, kid) {
            Some(key) => Ok(key),
            None => Err(NotFound),
        }
    }
}

/// A key is found exactly where some key declares the identifier, and the key
/// found is one of the set and declares it.
pub proof fn lemma_first_with_kid(keys: Seq<JWK>, kid: Seq<char>)
    ensures
        first_with_kid(keys, kid) is None <==> forall|i: int|
            0 <= i < keys.len() ==> jwk_kid(#[trigger] keys[i]) != Some(kid),
        first_with_kid(keys, kid) matches Some(key) ==> keys.contains(key) && jwk_kid(key) == Some(
            kid,
        ),
    decreases keys.len(),
{
    if keys.len() == 0 {
    } else if jwk_kid(keys[0]) == Some(kid) {
    } else {
        let rest = keys.drop_first();
        lemma_first_with_kid(rest, kid);
        assert forall|i: int| 0 <= i < rest.len() implies rest[i] == keys[i + 1] by {}
        if first_with_kid(rest, kid) is None {
            assert forall|i: int| 0 <= i < keys.len() implies jwk_kid(#[trigger] keys[i]) != Some(
                kid,
            ) by {
                if i > 0 {
                    assert(keys[i] == rest[i - 1]);
                }
            }
        } else {
            let key = first_with_kid(rest, kid).unwrap();
            let j = choose|j: int| 0 <= j < rest.len() && rest[j] == key;
            assert(keys[j + 1] == key);
        }
    }
}

} // verus!
