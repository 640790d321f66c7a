//! The query on comments: a filter and a page.

use vstd::prelude::*;

use mongodb::bson::document::ValueAccessError;
use mongodb::bson::oid::ObjectId;
use mongodb::bson::Document;

use crate::auth::user::{user_of, User, UserView};
use crate::encoding::bson::{
    bson_object_id, document_entries, document_field, failure_of, field, fits_millis,
    get_document, get_int32, get_object_id, get_stamp, insert_date, insert_int32,
    insert_object_id, insert_object_ids, insert_text, int32_field, is_object_id_text,
    items_field, lemma_whole_seconds, lowered, new_document, object_id_field, object_id_hex,
    optional, parse_object_id, read_text, stamp_field, text_field, whole, AccessFailure,
    Timestamp,
};

verus! {

/// A comment in a discussion.
#[derive(Debug, Clone, PartialEq, Eq)]
pub struct Comment {
    pub id: String,
    /// The number of the comment's status on the wire.
    pub status: i32,
    pub text: String,
    pub author: Option<User>,
    /// The comment that this one replies to.
    pub parent_id: Option<String>,
    /// The identifiers of the replies to this comment.
    pub children: Vec<String>,
    pub created_at: Option<Timestamp>,
    pub updated_at: Option<Timestamp>,
}

/// What a comment holds.
pub ghost struct CommentView {
    pub id: Seq<char>,
    pub status: i32,
    pub text: Seq<char>,
    pub author: Option<UserView>,
    pub parent_id: Option<Seq<char>>,
    pub children: Seq<Seq<char>>,
    pub created_at: Option<Timestamp>,
    pub updated_at: Option<Timestamp>,
}

impl View for Comment {
    type V = CommentView;

    open spec fn view(&self) -> CommentView {
        CommentView {
            id: self.id@,
            status: self.status,
            text: self.text@,
            author: match self.author {
                Some(author) => Some(author@),
                None => None,
            },
            parent_id: match self.parent_id {
                Some(id) => Some(id@),
                None => None,
            },
            children: Seq::new(self.children@.len(), |i: int| self.children@[i]@),
            created_at: self.created_at,
            updated_at: self.updated_at,
        }
    }
}

/// The user that the embedded document under `author` records.
pub open spec fn author_of(document: Document) -> Result<UserView, AccessFailure> {
    match document_field(document, "author"@) {
        Err(e) => Err(e),
        Ok(inner) => user_of(inner),
    }
}

/// The comment that a document records, or why it records none: the first of
/// `_id`, `status`, `text`, the author, `parent_id` and `createdAt` that
/// cannot be read. The replies are not read, and the time of the last change
/// is taken where it can be read.
pub open spec fn comment_of(document: Document) -> Result<CommentView, AccessFailure> {
    match object_id_field(document, "_id"@) {
        Err(e) => Err(e),
        Ok(id) => match int32_field(document, "status"@) {
            Err(e) => Err(e),
            Ok(status) => match text_field(document, "text"@) {
                Err(e) => Err(e),
                Ok(text) => match author_of(document) {
                    Err(e) => Err(e),
                    Ok(author) => match object_id_field(document, "parent_id"@) {
                        Err(e) => Err(e),
                        Ok(parent_id) => match stamp_field(document, "createdAt"@) {
                            Err(e) => Err(e),
                            Ok(created_at) => Ok(
                                CommentView {
                                    id,
                                    status,
                                    text,
                                    author: Some(author),
                                    parent_id: Some(parent_id),
                                    children: Seq::empty(),
                                    created_at: Some(created_at),
                                    updated_at: optional(stamp_field(document, "updatedAt"@)),
                                },
                            ),
                        },
                    },
                },
            },
        },
    }
}

/// Whether a comment can be written: it has an author and a time of
/// creation, and its times in milliseconds fit a date.
pub open spec fn can_marshal(comment: CommentView) -> bool {
    &&& comment.author is Some
    &&& comment.created_at is Some
    &&& fits_millis(comment.created_at.unwrap().seconds)
    &&& comment.updated_at is Some ==> fits_millis(comment.updated_at.unwrap().seconds)
}

/// Whether every text spells an object identifier.
pub open spec fn all_object_ids(texts: Seq<Seq<char>>) -> bool {
    forall|i: int| 0 <= i < texts.len() ==> is_object_id_text(#[trigger] texts[i])
}

/// Whether the identifiers of a comment spell object identifiers: its own,
/// those of its replies and, where it is a reply, that of its parent.
pub open spec fn has_object_ids(comment: CommentView) -> bool {
    &&& is_object_id_text(comment.id)
    &&& all_object_ids(comment.children)
    &&& comment.parent_id is Some ==> is_object_id_text(comment.parent_id.unwrap())
}

/// The keys of the document of a comment.
pub open spec fn comment_keys(comment: CommentView) -> Set<Seq<char>> {
    let always = Set::<Seq<char>>::empty().insert("_id"@).insert("status"@).insert("text"@).insert(
        "author"@,
    ).insert("children"@).insert("createdAt"@);
    let replying = if comment.parent_id is Some {
        always.insert("parent_id"@)
    } else {
        always
    };
    if comment.updated_at is Some {
        replying.insert("updatedAt"@)
    } else {
        replying
    }
}

/// Whether `items` are the identifiers of `children`, in their order.
pub open spec fn lists_children(
    items: Result<Seq<mongodb::bson::Bson>, AccessFailure>,
    children: Seq<Seq<char>>,
) -> bool {
    &&& items is Ok
    &&& items.unwrap().len() == children.len()
    &&& forall|i: int|
        0 <= i < children.len() ==> bson_object_id(#[trigger] items.unwrap()[i]) == Some(
            lowered(children[i]),
        )
}

/// Whether `document` is the record of `comment`: it holds the comment's
/// identifier, status and text, the identifier of its author as a string,
/// the identifiers of its replies, the time of creation in whole seconds,
/// the identifier of its parent where it is a reply and the time of the last
/// change in whole seconds where it has one, and nothing else.
pub open spec fn records_comment(document: Document, comment: CommentView) -> bool {
    &&& document_entries(document).dom() == comment_keys(comment)
    &&& object_id_field(document, "_id"@) == Ok::<Seq<char>, AccessFailure>(lowered(comment.id))
    &&& int32_field(document, "status"@) == Ok::<i32, AccessFailure>(comment.status)
    &&& text_field(document, "text"@) == Ok::<Seq<char>, AccessFailure>(comment.text)
    &&& text_field(document, "author"@) == Ok::<Seq<char>, AccessFailure>(
        comment.author.unwrap().id,
    )
    &&& lists_children(items_field(document, "children"@), comment.children)
    &&& stamp_field(document, "createdAt"@) == Ok::<Timestamp, AccessFailure>(
        whole(comment.created_at.unwrap().seconds),
    )
    &&& match comment.parent_id {
        Some(parent) => object_id_field(document, "parent_id"@) == Ok::<Seq<char>, AccessFailure>(
            lowered(parent),
        ),
        None => field(document, "parent_id"@) is None,
    }
    &&& match comment.updated_at {
        Some(at) => stamp_field(document, "updatedAt"@) == Ok::<Timestamp, AccessFailure>(
            whole(at.seconds),
        ),
        None => field(document, "updatedAt"@) is None,
    }
}

/// Parses the identifiers of the replies.
fn parse_children(children: &Vec<String>) -> (ids: Result<
    Vec<ObjectId>,
    mongodb::bson::oid::Error,
>)
    ensures
        match ids {
            Ok(list) => {
                &&& list@.len() == children@.len()
                &&& forall|i: int|
                    0 <= i < children@.len() ==> is_object_id_text(#[trigger] children@[i]@)
                        && object_id_hex(list@[i]) == lowered(children@[i]@)
            },
            Err(_) => exists|i: int|
                0 <= i < children@.len() && !is_object_id_text(#[trigger] children@[i]@),
        },
{
    let mut list: Vec<ObjectId> = Vec::new();
    let mut i: usize = 0;
    while i < children.len()
        invariant
            i <= children@.len(),
            list@.len() == i,
            forall|j: int|
                0 <= j < i ==> is_object_id_text(#[trigger] children@[j]@) && object_id_hex(
                    list@[j],
                ) == lowered(children@[j]@),
        decreases children@.len() - i,
    {
        match parse_object_id(children[i].as_str()) {
            Ok(id) => {
                list.push(id);
            },
            Err(e) => {
                assert(!is_object_id_text(children@[i as int]@));
                return Err(e);
            },
        }
        i += 1;
    }
    Ok(list)
}

impl Comment {
    /// Whether the comment can be written.
    pub fn is_marshalable(&self) -> (ready: bool)
        ensures
            ready == can_marshal(self@),
    {
        let created = match self.created_at {
            Some(at) => -9_223_372_036_854_775 <= at.seconds && at.seconds <= 9_223_372_036_854_775,
            None => false,
        };
        let updated = match self.updated_at {
            Some(at) => -9_223_372_036_854_775 <= at.seconds && at.seconds <= 9_223_372_036_854_775,
            None => true,
        };
        self.author.is_some() && created && updated
    }

    /// Writes the comment as a document. It fails where one of the comment's
    /// identifiers does not spell an object identifier.
    pub fn marshal_bson(&self) -> (document: Result<Document, mongodb::bson::oid::Error>)
        requires
            can_marshal(self@),
        ensures
            match document {
                Ok(d) => has_object_ids(self@) && records_comment(d, self@),
                Err(_) => !has_object_ids(self@),
            },
    {
        let id = parse_object_id(self.id.as_str())?;
        let children = match parse_children(&self.children) {
            Ok(children) => children,
            Err(e) => {
                assert(!all_object_ids(self@.children)) by {
                    let i = choose|i: int|
                        0 <= i < self.children@.len() && !is_object_id_text(
                            #[trigger] self.children@[i]@,
                        );
                    assert(self@.children[i] == self.children@[i]@);
                }
                return Err(e);
            },
        };
        assert(all_object_ids(self@.children)) by {
            assert forall|i: int| 0 <= i < self@.children.len() implies is_object_id_text(
                #[trigger] self@.children[i],
            ) by {
                assert(self@.children[i] == self.children@[i]@);
            }
        }
        let parent = match &self.parent_id {
            Some(text) => Some(parse_object_id(text.as_str())?),
            None => None,
        };
        let mut document = new_document();
        proof {
            reveal_strlit("_id");
            reveal_strlit("status");
            reveal_strlit("text");
            reveal_strlit("author");
            reveal_strlit("children");
            reveal_strlit("createdAt");
            reveal_strlit("parent_id");
            reveal_strlit("updatedAt");
            assert("_id"@.len() == 3);
            assert("status"@.len() == 6);
            assert("text"@.len() == 4);
            assert("author"@.len() == 6);
            assert("children"@.len() == 8);
            assert("createdAt"@.len() == 9);
            assert("status"@[0] != "author"@[0]);
            assert("createdAt"@[0] != "parent_id"@[0]);
            assert("createdAt"@[0] != "updatedAt"@[0]);
            assert("parent_id"@[0] != "updatedAt"@[0]);
        }
        insert_object_id(&mut document, "_id", id);
        insert_int32(&mut document, "status", self.status);
        insert_text(&mut document, "text", self.text.as_str());
        match &self.author {
            Some(author) => {
                insert_text(&mut document, "author", author.id.as_str());
            },
            None => {},
        }
        let ghost parsed = children@;
        insert_object_ids(&mut document, "children", children);
        match self.created_at {
            Some(at) => {
                proof {
                    lemma_whole_seconds(at.seconds);
                }
                insert_date(&mut document, "createdAt", at.seconds * 1000);
            },
            None => {},
        }
        match parent {
            Some(parent_id) => {
                insert_object_id(&mut document, "parent_id", parent_id);
            },
            None => {},
        }
        match self.updated_at {
            Some(at) => {
                proof {
                    lemma_whole_seconds(at.seconds);
                }
                insert_date(&mut document, "updatedAt", at.seconds * 1000);
            },
            None => {},
        }
        assert(document_entries(document).dom() =~= comment_keys(self@));
        assert(lists_children(items_field(document, "children"@), self@.children)) by {
            let items = items_field(document, "children"@).unwrap();
            assert forall|i: int| 0 <= i < self@.children.len() implies bson_object_id(
                #[trigger] items[i],
            ) == Some(lowered(self@.children[i])) by {
                assert(self@.children[i] == self.children@[i]@);
                assert(object_id_hex(parsed[i]) == lowered(self.children@[i]@));
            }
        }
        Ok(document)
    }

    /// Reads a comment out of its document, with the author that is embedded
    /// in it.
    pub fn unmarshal_bson(document: &Document) -> (comment: Result<Comment, ValueAccessError>)
        ensures
            match comment {
                Ok(c) => comment_of(*document) == Ok::<CommentView, AccessFailure>(c@),
                Err(e) => comment_of(*document) == Err::<CommentView, AccessFailure>(
                    failure_of(e),
                ),
            },
    {
        let id = get_object_id(document, "_id")?;
        let status = get_int32(document, "status")?;
        let text = read_text(document, "text")?;
        let author = User::unmarshal_bson(get_document(document, "author")?)?;
        let parent_id = get_object_id(document, "parent_id")?;
        let created_at = get_stamp(document, "createdAt")?;
        let updated_at = match get_stamp(document, "updatedAt") {
            Ok(at) => Some(at),
            Err(_) => None,
        };
        let children: Vec<String> = Vec::new();
        let comment = Comment {
            id,
            status,
            text,
            author: Some(author),
            parent_id: Some(parent_id),
            children,
            created_at: Some(created_at),
            updated_at,
        };
        assert(comment@.children =~= Seq::<Seq<char>>::empty());
        Ok(comment)
    }
}

/// How far a comment has come.
#[derive(Debug, Clone, Copy, PartialEq, Eq, Structural)]
pub enum CommentStatus {
    Pending,
    Published,
}

/// A query on comments, built step by step.
#[derive(Debug, Clone, Copy)]
pub struct CommentQuery {
    status: Option<CommentStatus>,
    offset: u32,
    limit: u32,
}

/// What a query on comments asks for.
pub ghost struct CommentQueryView {
    pub status: Option<CommentStatus>,
    pub offset: u32,
    pub limit: u32,
}

impl View for CommentQuery {
    type V = CommentQueryView;

    closed spec fn view(&self) -> CommentQueryView {
        CommentQueryView { status: self.status, offset: self.offset, limit: self.limit }
    }
}

/// One step of the listing of comments, in the terms of the query.
#[derive(Debug, Clone, Copy, PartialEq, Eq, Structural)]
pub enum CommentStage {
    /// Sort by the time of creation, oldest first.
    SortOldestFirst,
    /// Keep the comments of this status.
    MatchStatus(CommentStatus),
    /// Put the author in place of its identifier.
    JoinAuthor,
    /// Skip this many comments.
    Offset(u32),
    /// Return at most this many comments.
    Limit(u32),
}

/// The steps of a listing: the sort, the status filter where the query has
/// one, the author, then the page.
pub open spec fn stages_of(query: CommentQueryView) -> Seq<CommentStage> {
    seq![CommentStage::SortOldestFirst] + match query.status {
        Some(s) => seq![CommentStage::MatchStatus(s)],
        None => Seq::empty(),
    } + seq![
        CommentStage::JoinAuthor,
        CommentStage::Offset(query.offset),
        CommentStage::Limit(query.limit),
    ]
}

impl CommentQuery {
    /// The steps by which the matching comments are listed.
    pub fn stages(&self) -> (stages: Vec<CommentStage>)
        ensures
            stages@ == stages_of(self@),
    {
        let mut stages: Vec<CommentStage> = Vec::new();
        stages.push(CommentStage::SortOldestFirst);
        match self.status {
            Some(status) => {
                stages.push(CommentStage::MatchStatus(status));
            },
            None => {},
        }
        stages.push(CommentStage::JoinAuthor);
        stages.push(CommentStage::Offset(self.offset));
        stages.push(CommentStage::Limit(self.limit));
        assert(stages@ =~= stages_of(self@));
        stages
    }

    /// Starts a query: no filter, the first page, five comments to a page.
    pub fn builder() -> (query: Self)
        ensures
            query@ == (CommentQueryView { status: None, offset: 0, limit: 5 }),
    {
        CommentQuery { status: None, offset: 0, limit: 5 }
    }

    /// Keeps only comments of the given status.
    pub fn with_status(self, status: CommentStatus) -> (query: Self)
        ensures
            query@ == (CommentQueryView { status: Some(status), ..self@ }),
    {
        CommentQuery { status: Some(status), offset: self.offset, limit: self.limit }
    }

    /// Skips the first `offset` comments.
    pub fn with_offset(self, offset: u32) -> (query: Self)
        ensures
            query@ == (CommentQueryView { offset, ..self@ }),
    {
        CommentQuery { status: self.status, offset, limit: self.limit }
    }

    /// Returns at most `limit` comments.
    pub fn with_limit(self, limit: u32) -> (query: Self)
        ensures
            query@ == (CommentQueryView { limit, ..self@ }),
    {
        CommentQuery { status: self.status, offset: self.offset, limit }
    }

    /// The status that comments are filtered by.
    pub fn status(&self) -> (status: Option<CommentStatus>)
        ensures
            status == self@.status,
    {
        self.status
    }

    /// The number of comments that are skipped.
    pub fn offset(&self) -> (offset: u32)
        ensures
            offset == self@.offset,
    {
        self.offset
    }

    /// The number of comments that are returned at most.
    pub fn limit(&self) -> (limit: u32)
        ensures
            limit == self@.limit,
    {
        self.limit
    }
}

} // verus!
