//! What the discussion service decides before it asks its repository.

use vstd::prelude::*;

use crate::auth::claims::Principal;
use crate::auth::service::Refusal;
use crate::auth::user::{User, UserView};
use crate::discussion::comment::{Comment, CommentView};

verus! {

/// The message of the refusal of a request without its comment.
pub fn missing_comment_message() -> (message: &'static str)
    ensures
        message@ == "Missing required 'comment' field"@,
{
    "Missing required 'comment' field"
}

/// The author that is known by its identifier alone.
pub open spec fn author_by_id(id: Seq<char>) -> UserView {
    UserView {
        id,
        user: Seq::empty(),
        display_name: Seq::empty(),
        profile_picture: Seq::empty(),
        created_at: None,
        updated_at: None,
    }
}

/// What the creation of a comment starts with.
pub open spec fn creation_of(principal: Option<Principal>, comment: Option<Comment>) -> Result<
    CommentView,
    Refusal,
> {
    match principal {
        None => Err(Refusal::Forbidden),
        Some(caller) => match comment {
            None => Err(Refusal::MissingField),
            Some(c) => Ok(CommentView { author: Some(author_by_id(caller.subject@)), ..c@ }),
        },
    }
}

/// Starts the creation of a comment: a call without a principal is refused,
/// then a request without a comment; else the caller becomes the comment's
/// author, known by its subject, and the comment is the one to create.
pub fn begin_create_comment(principal: Option<&Principal>, comment: Option<Comment>) -> (begun:
    Result<Comment, Refusal>)
    ensures
        match begun {
            Ok(c) => creation_of(
                match principal {
                    Some(p) => Some(*p),
                    None => None,
                },
                comment,
            ) == Ok::<CommentView, Refusal>(c@),
            Err(refusal) => creation_of(
                match principal {
                    Some(p) => Some(*p),
                    None => None,
                },
                comment,
            ) == Err::<CommentView, Refusal>(refusal),
        },
{
    let caller = match principal {
        Some(caller) => caller,
        None => {
            return Err(Refusal::Forbidden);
        },
    };
    match comment {
        Some(c) => {
            let author = User {
                id: caller.subject.clone(),
                user: String::new(),
                display_name: String::new(),
                profile_picture: String::new(),
                created_at: None,
                updated_at: None,
            };
            Ok(
                Comment {
                    id: c.id,
                    status: c.status,
                    text: c.text,
                    author: Some(author),
                    parent_id: c.parent_id,
                    children: c.children,
                    created_at: c.created_at,
                    updated_at: c.updated_at,
                },
            )
        },
        None => Err(Refusal::MissingField),
    }
}

} // verus!
