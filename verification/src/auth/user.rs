//! Users as the store records them.

use vstd::prelude::*;

use mongodb::bson::document::ValueAccessError;
use mongodb::bson::Document;

use crate::encoding::bson::{
    document_entries, failure_of, field, fits_millis, get_object_id, get_stamp, insert_date,
    insert_object_id, insert_text, is_object_id_text, lemma_whole_seconds, lowered, new_document,
    object_id_field, optional, parse_object_id, read_text, stamp_field, text_field, whole,
    AccessFailure, Timestamp,
};

verus! {

/// A user of the blog.
#[derive(Debug, Clone, PartialEq, Eq)]
pub struct User {
    pub id: String,
    /// The subject that the user signs in as.
    pub user: String,
    pub display_name: String,
    pub profile_picture: String,
    pub created_at: Option<Timestamp>,
    pub updated_at: Option<Timestamp>,
}

/// What a user holds.
pub ghost struct UserView {
    pub id: Seq<char>,
    pub user: Seq<char>,
    pub display_name: Seq<char>,
    pub profile_picture: Seq<char>,
    pub created_at: Option<Timestamp>,
    pub updated_at: Option<Timestamp>,
}

impl View for User {
    type V = UserView;

    open spec fn view(&self) -> UserView {
        UserView {
            id: self.id@,
            user: self.user@,
            display_name: self.display_name@,
            profile_picture: self.profile_picture@,
            created_at: self.created_at,
            updated_at: self.updated_at,
        }
    }
}

/// The user that a document records, or why it records none: the first of
/// `_id`, `user`, `displayName`, `profilePicture` and `createdAt` that cannot
/// be read. The time of the last change is taken where it can be read.
pub open spec fn user_of(document: Document) -> Result<UserView, AccessFailure> {
    match object_id_field(document, "_id"@) {
        Err(e) => Err(e),
        Ok(id) => match text_field(document, "user"@) {
            Err(e) => Err(e),
            Ok(user) => match text_field(document, "displayName"@) {
                Err(e) => Err(e),
                Ok(display_name) => match text_field(document, "profilePicture"@) {
                    Err(e) => Err(e),
                    Ok(profile_picture) => match stamp_field(document, "createdAt"@) {
                        Err(e) => Err(e),
                        Ok(created_at) => Ok(
                            UserView {
                                id,
                                user,
                                display_name,
                                profile_picture,
                                created_at: Some(created_at),
                                updated_at: optional(stamp_field(document, "updatedAt"@)),
                            },
                        ),
                    },
                },
            },
        },
    }
}

/// Whether a user can be written: it has a time of creation, and its times
/// in milliseconds fit a date.
pub open spec fn can_marshal(user: UserView) -> bool {
    &&& user.created_at is Some
    &&& fits_millis(user.created_at.unwrap().seconds)
    &&& user.updated_at is Some ==> fits_millis(user.updated_at.unwrap().seconds)
}

/// The keys of the document of a user.
pub open spec fn user_keys(user: UserView) -> Set<Seq<char>> {
    let always = Set::<Seq<char>>::empty().insert("_id"@).insert("user"@).insert(
        "displayName"@,
    ).insert("profilePicture"@).insert("createdAt"@);
    if user.updated_at is Some {
        always.insert("updatedAt"@)
    } else {
        always
    }
}

/// Whether `document` is the record of `user`: it holds the user's
/// identifier, name, display name and picture, the time of creation in whole
/// seconds and, where the user has one, the time of the last change in whole
/// seconds, and nothing else.
pub open spec fn records_user(document: Document, user: UserView) -> bool {
    &&& document_entries(document).dom() == user_keys(user)
    &&& object_id_field(document, "_id"@) == Ok::<Seq<char>, AccessFailure>(lowered(user.id))
    &&& text_field(document, "user"@) == Ok::<Seq<char>, AccessFailure>(user.user)
    &&& text_field(document, "displayName"@) == Ok::<Seq<char>, AccessFailure>(user.display_name)
    &&& text_field(document, "profilePicture"@) == Ok::<Seq<char>, AccessFailure>(
        user.profile_picture,
    )
    &&& stamp_field(document, "createdAt"@) == Ok::<Timestamp, AccessFailure>(
        whole(user.created_at.unwrap().seconds),
    )
    &&& match user.updated_at {
        Some(at) => stamp_field(document, "updatedAt"@) == Ok::<Timestamp, AccessFailure>(
            whole(at.seconds),
        ),
        None => field(document, "updatedAt"@) is None,
    }
}

/// What is read back of a user that was written: the user with its
/// identifier in lower case and its times in whole seconds.
pub open spec fn stored(user: UserView) -> UserView {
    UserView {
        id: lowered(user.id),
        created_at: Some(whole(user.created_at.unwrap().seconds)),
        updated_at: match user.updated_at {
            Some(at) => Some(whole(at.seconds)),
            None => None,
        },
        ..user
    }
}

/// Writing and reading: the record of a user reads back as the user, with
/// its identifier in lower case and its times in whole seconds.
pub proof fn record_reads_back(document: Document, user: UserView)
    requires
        user.created_at is Some,
        records_user(document, user),
    ensures
        user_of(document) == Ok::<UserView, AccessFailure>(stored(user)),
{
}

impl User {
    /// Whether the user can be written.
    pub fn is_marshalable(&self) -> (ready: bool)
        ensures
            ready == can_marshal(self@),
    {
        let created = match self.created_at {
            Some(at) => -9_223_372_036_854_775 <= at.seconds && at.seconds <= 9_223_372_036_854_775,
            None => false,
        };
        let updated = match self.updated_at {
            Some(at) => -9_223_372_036_854_775 <= at.seconds && at.seconds <= 9_223_372_036_854_775,
            None => true,
        };
        created && updated
    }

    /// Writes the user as a document. It fails where the user's identifier
    /// does not spell an object identifier.
    pub fn marshal_bson(&self) -> (document: Result<Document, mongodb::bson::oid::Error>)
        requires
            can_marshal(self@),
        ensures
            match document {
                Ok(d) => is_object_id_text(self.id@) && records_user(d, self@),
                Err(_) => !is_object_id_text(self.id@),
            },
    {
        let id = parse_object_id(self.id.as_str())?;
        let mut document = new_document();
        proof {
            reveal_strlit("_id");
            reveal_strlit("user");
            reveal_strlit("displayName");
            reveal_strlit("profilePicture");
            reveal_strlit("createdAt");
            reveal_strlit("updatedAt");
            assert("_id"@.len() == 3);
            assert("user"@.len() == 4);
            assert("displayName"@.len() == 11);
            assert("profilePicture"@.len() == 14);
            assert("createdAt"@.len() == 9);
            assert("createdAt"@[0] != "updatedAt"@[0]);
        }
        insert_object_id(&mut document, "_id", id);
        insert_text(&mut document, "user", self.user.as_str());
        insert_text(&mut document, "displayName", self.display_name.as_str());
        insert_text(&mut document, "profilePicture", self.profile_picture.as_str());
        match self.created_at {
            Some(at) => {
                proof {
                    lemma_whole_seconds(at.seconds);
                }
                insert_date(&mut document, "createdAt", at.seconds * 1000);
            },
            None => {},
        }
        match self.updated_at {
            Some(at) => {
                proof {
                    lemma_whole_seconds(at.seconds);
                }
                insert_date(&mut document, "updatedAt", at.seconds * 1000);
            },
            None => {},
        }
        assert(document_entries(document).dom() =~= user_keys(self@));
        Ok(document)
    }

    /// Reads a user out of its document.
    pub fn unmarshal_bson(document: &Document) -> (user: Result<User, ValueAccessError>)
        ensures
            match user {
                Ok(u) => user_of(*document) == Ok::<UserView, AccessFailure>(u@),
                Err(e) => user_of(*document) == Err::<UserView, AccessFailure>(failure_of(e)),
            },
    {
        let id = get_object_id(document, "_id")?;
        let user = read_text(document, "user")?;
        let display_name = read_text(document, "displayName")?;
        let profile_picture = read_text(document, "profilePicture")?;
        let created_at = get_stamp(document, "createdAt")?;
        let updated_at = match get_stamp(document, "updatedAt") {
            Ok(at) => Some(at),
            Err(_) => None,
        };
        Ok(
            User {
                id,
                user,
                display_name,
                profile_picture,
                created_at: Some(created_at),
                updated_at,
            },
        )
    }
}

} // verus!
