//! The claims of a token and the principal they stand for.

use vstd::prelude::*;

use serde_json::Value;

use crate::auth::json::{
    list_member, optional_view, read_list, read_text, read_unsigned, text_member,
    unsigned_member, views,
};

verus! {

/// What a claims object says under the names that the library reads.
pub ghost struct ClaimValues {
    /// The `iss` claim, where it is a string.
    pub issuer: Option<Seq<char>>,
    /// The audiences of the `aud` claim: the one string, or the strings of an
    /// array of strings.
    pub audience: Seq<Seq<char>>,
    /// The `sub` claim, where it is a string.
    pub subject: Option<Seq<char>>,
    /// The `exp` claim in seconds since the epoch, where it is an unsigned
    /// integer.
    pub expires_at: Option<u64>,
    /// The strings of the `permissions` claim, where it is an array of
    /// strings; none otherwise.
    pub permissions: Seq<Seq<char>>,
}

/// The claims that `value` holds. Members under other names are not looked
/// at, and a member of the wrong shape counts as absent.
pub open spec fn claims_of(value: Value) -> ClaimValues {
    ClaimValues {
        issuer: text_member(value, "iss"@),
        audience: list_member(value, "aud"@, true),
        subject: text_member(value, "sub"@),
        expires_at: unsigned_member(value, "exp"@),
        permissions: list_member(value, "permissions"@, false),
    }
}

/// The claims of a token as they were decoded, before any of them is checked.
#[derive(Debug, Clone)]
pub struct DecodedClaims {
    pub issuer: Option<String>,
    pub audience: Vec<String>,
    pub subject: Option<String>,
    pub expires_at: Option<u64>,
    pub permissions: Vec<String>,
}

impl View for DecodedClaims {
    type V = ClaimValues;

    open spec fn view(&self) -> ClaimValues {
        ClaimValues {
            issuer: optional_view(self.issuer),
            audience: views(self.audience@),
            subject: optional_view(self.subject),
            expires_at: self.expires_at,
            permissions: views(self.permissions@),
        }
    }
}

impl DecodedClaims {
    /// Reads the claims out of a decoded claims object.
    pub fn decode(value: &Value) -> (decoded: DecodedClaims)
        ensures
            decoded@ == claims_of(*value),
    {
        DecodedClaims {
            issuer: read_text(value, "iss"),
            audience: read_list(value, "aud", true),
            subject: read_text(value, "sub"),
            expires_at: read_unsigned(value, "exp"),
            permissions: read_list(value, "permissions", false),
        }
    }
}

/// The claims of a token that passed every check.
pub ghost struct ClaimSetView {
    pub subject: Seq<char>,
    pub issuer: Seq<char>,
    pub audience: Seq<Seq<char>>,
    pub expires_at: u64,
    pub permissions: Seq<Seq<char>>,
}

/// The claims of a token that passed every check: the subject is present and
/// not empty, and issuer and expiry are present.
#[derive(Debug, Clone)]
pub struct ClaimSet {
    pub subject: String,
    pub issuer: String,
    pub audience: Vec<String>,
    pub expires_at: u64,
    pub permissions: Vec<String>,
}

impl View for ClaimSet {
    type V = ClaimSetView;

    open spec fn view(&self) -> ClaimSetView {
        ClaimSetView {
            subject: self.subject@,
            issuer: self.issuer@,
            audience: views(self.audience@),
            expires_at: self.expires_at,
            permissions: views(self.permissions@),
        }
    }
}

/// An authenticated caller.
pub ghost struct PrincipalView {
    pub subject: Seq<char>,
    pub permissions: Seq<Seq<char>>,
}

/// An authenticated caller: who it is and what it may do.
#[derive(Debug, Clone, PartialEq, Eq)]
pub struct Principal {
    pub subject: String,
    pub permissions: Vec<String>,
}

impl View for Principal {
    type V = PrincipalView;

    open spec fn view(&self) -> PrincipalView {
        PrincipalView { subject: self.subject@, permissions: views(self.permissions@) }
    }
}

/// The principal that a claim set stands for.
pub open spec fn principal_of(claims: ClaimSetView) -> PrincipalView {
    PrincipalView { subject: claims.subject, permissions: claims.permissions }
}

impl PrincipalView {
    /// The permissions as a set.
    pub open spec fn permission_set(self) -> Set<Seq<char>> {
        self.permissions.to_set()
    }
}

/// Projects a checked claim set onto the principal: its subject and its
/// permissions, nothing else.
pub fn extract(claims: ClaimSet) -> (principal: Principal)
    ensures
        principal@ == principal_of(claims@),
{
    Principal { subject: claims.subject, permissions: claims.permissions }
}

impl Principal {
    /// Whether the principal holds `permission`.
    pub fn has_permission(&self, permission: &str) -> (held: bool)
        ensures
            held == self@.permission_set().contains(permission@),
    {
        let wanted = permission.to_owned();
        let mut i: usize = 0;
        while i < self.permissions.len()
            invariant
                i <= self.permissions@.len(),
                wanted@ == permission@,
                forall|j: int| 0 <= j < i ==> self.permissions@[j]@ != permission@,
            decreases self.permissions@.len() - i,
        {
            if self.permissions[i] == wanted {
                assert(views(self.permissions@)[i as int] == permission@);
                return true;
            }
            i += 1;
        }
        assert(!views(self.permissions@).contains(permission@));
        false
    }
}

} // verus!
