//! What the user service decides before and after it asks its repository.

use vstd::prelude::*;

use crate::auth::claims::Principal;
use crate::auth::user::{User, UserView};

verus! {

/// Why a handler turns a request away before it does any work.
#[derive(Debug, Clone, Copy, PartialEq, Eq, Structural)]
pub enum Refusal {
    /// The call carries no principal: the status is "unauthenticated".
    Forbidden,
    /// The request lacks the message that it is about: the status is
    /// "invalid argument".
    MissingField,
}

/// The message of the refusal of a call without a principal.
pub fn forbidden_message() -> (message: &'static str)
    ensures
        message@ == "Forbidden"@,
{
    "Forbidden"
}

/// The message of the refusal of a request without its user.
pub fn missing_user_message() -> (message: &'static str)
    ensures
        message@ == "Missing required 'user' field"@,
{
    "Missing required 'user' field"
}

/// The user that a request asks to create, made the caller's own: every
/// field as the request gives it, but the name, which is the caller's
/// subject.
pub open spec fn owned_by(user: UserView, subject: Seq<char>) -> UserView {
    UserView { user: subject, ..user }
}

/// What the creation of a user starts with.
pub open spec fn creation_of(principal: Option<Principal>, user: Option<User>) -> Result<
    UserView,
    Refusal,
> {
    match principal {
        None => Err(Refusal::Forbidden),
        Some(caller) => match user {
            None => Err(Refusal::MissingField),
            Some(u) => Ok(owned_by(u@, caller.subject@)),
        },
    }
}

/// Starts the creation of a user: a call without a principal is refused, then
/// a request without a user; else the user is made the caller's own, and is
/// the one to look up by name next.
pub fn begin_create_user(principal: Option<&Principal>, user: Option<User>) -> (begun: Result<
    User,
    Refusal,
>)
    ensures
        match begun {
            Ok(u) => creation_of(
                match principal {
                    Some(p) => Some(*p),
                    None => None,
                },
                user,
            ) == Ok::<UserView, Refusal>(u@),
            Err(refusal) => creation_of(
                match principal {
                    Some(p) => Some(*p),
                    None => None,
                },
                user,
            ) == Err::<UserView, Refusal>(refusal),
        },
{
    let caller = match principal {
        Some(caller) => caller,
        None => {
            return Err(Refusal::Forbidden);
        },
    };
    match user {
        Some(u) => Ok(
            User {
                id: u.id,
                user: caller.subject.clone(),
                display_name: u.display_name,
                profile_picture: u.profile_picture,
                created_at: u.created_at,
                updated_at: u.updated_at,
            },
        ),
        None => Err(Refusal::MissingField),
    }
}

/// What follows the lookup of the user by name.
#[derive(Debug, Clone, PartialEq, Eq)]
pub enum AfterLookup {
    /// A user of that name exists: it is the answer, and nothing is created.
    Respond(User),
    /// No user of that name exists: this one is to be created.
    Create(User),
}

/// Decides what follows the lookup: the user that was found is the answer;
/// where none was found, the user of the request is to be created.
pub fn after_lookup(found: Option<User>, user: User) -> (next: AfterLookup)
    ensures
        next == match found {
            Some(existing) => AfterLookup::Respond(existing),
            None => AfterLookup::Create(user),
        },
{
    match found {
        Some(existing) => AfterLookup::Respond(existing),
        None => AfterLookup::Create(user),
    }
}

} // verus!
