//! The query on posts: filters and a page.

use vstd::prelude::*;

use mongodb::bson::document::ValueAccessError;
use mongodb::bson::Document;

use crate::auth::user::{user_of, User, UserView};
use crate::blog::taxonomy::{taxonomies_of, taxonomy_views, Taxonomy, TaxonomyView};
use crate::encoding::bson::{
    document_field, failure_of, get_document, get_int32, get_items, get_object_id, get_stamp,
    int32_field, items_field, object_id_field, optional, read_text, stamp_field, text_field,
    AccessFailure, Timestamp,
};
use crate::storage::file::{file_of, File, FileView};

verus! {

/// A post of the blog.
#[derive(Debug, Clone, PartialEq, Eq)]
pub struct Post {
    pub id: String,
    pub title: String,
    pub slug: String,
    /// The number of the post's status on the wire.
    pub status: i32,
    pub markdown: String,
    pub html: String,
    pub published_at: Option<Timestamp>,
    pub author: Option<User>,
    pub categories: Vec<Taxonomy>,
    pub tags: Vec<Taxonomy>,
    pub featured_image: Option<File>,
    pub created_at: Option<Timestamp>,
    pub updated_at: Option<Timestamp>,
}

/// What a post holds.
pub ghost struct PostView {
    pub id: Seq<char>,
    pub title: Seq<char>,
    pub slug: Seq<char>,
    pub status: i32,
    pub markdown: Seq<char>,
    pub html: Seq<char>,
    pub published_at: Option<Timestamp>,
    pub author: Option<UserView>,
    pub categories: Seq<TaxonomyView>,
    pub tags: Seq<TaxonomyView>,
    pub featured_image: Option<FileView>,
    pub created_at: Option<Timestamp>,
    pub updated_at: Option<Timestamp>,
}

impl View for Post {
    type V = PostView;

    open spec fn view(&self) -> PostView {
        PostView {
            id: self.id@,
            title: self.title@,
            slug: self.slug@,
            status: self.status,
            markdown: self.markdown@,
            html: self.html@,
            published_at: self.published_at,
            author: match self.author {
                Some(author) => Some(author@),
                None => None,
            },
            categories: taxonomy_views(self.categories@),
            tags: taxonomy_views(self.tags@),
            featured_image: match self.featured_image {
                Some(file) => Some(file@),
                None => None,
            },
            created_at: self.created_at,
            updated_at: self.updated_at,
        }
    }
}

/// What heads a post.
pub ghost struct PostHead {
    pub id: Seq<char>,
    pub title: Seq<char>,
    pub slug: Seq<char>,
    pub status: i32,
    pub markdown: Seq<char>,
    pub html: Seq<char>,
}

/// The head of the post that a document records, or the first of `_id`,
/// `title`, `slug`, `status`, `markdown` and `html` that cannot be read.
pub open spec fn head_of(document: Document) -> Result<PostHead, AccessFailure> {
    match object_id_field(document, "_id"@) {
        Err(e) => Err(e),
        Ok(id) => match text_field(document, "title"@) {
            Err(e) => Err(e),
            Ok(title) => match text_field(document, "slug"@) {
                Err(e) => Err(e),
                Ok(slug) => match int32_field(document, "status"@) {
                    Err(e) => Err(e),
                    Ok(status) => match text_field(document, "markdown"@) {
                        Err(e) => Err(e),
                        Ok(markdown) => match text_field(document, "html"@) {
                            Err(e) => Err(e),
                            Ok(html) => Ok(PostHead { id, title, slug, status, markdown, html }),
                        },
                    },
                },
            },
        },
    }
}

/// The user that the embedded document under `key` records.
pub open spec fn user_under(document: Document, key: Seq<char>) -> Result<UserView, AccessFailure> {
    match document_field(document, key) {
        Err(e) => Err(e),
        Ok(inner) => user_of(inner),
    }
}

/// The taxonomies that the array under `key` records.
pub open spec fn taxonomies_under(document: Document, key: Seq<char>) -> Result<
    Seq<TaxonomyView>,
    AccessFailure,
> {
    match items_field(document, key) {
        Err(e) => Err(e),
        Ok(items) => taxonomies_of(items),
    }
}

/// The file that the embedded document under `key` records, where there is
/// such a document: none where there is not, and a failure where the
/// document records no file.
pub open spec fn file_under(document: Document, key: Seq<char>) -> Result<
    Option<FileView>,
    AccessFailure,
> {
    match document_field(document, key) {
        Err(_) => Ok(None),
        Ok(inner) => match file_of(inner) {
            Err(e) => Err(e),
            Ok(file) => Ok(Some(file)),
        },
    }
}

/// The post that a document records, or why it records none: the first that
/// cannot be read of its head, its author, its categories, its tags, its
/// featured image where it has one, and `createdAt`. The times of publication
/// and of the last change are taken where they can be read.
pub open spec fn post_of(document: Document) -> Result<PostView, AccessFailure> {
    match head_of(document) {
        Err(e) => Err(e),
        Ok(head) => match user_under(document, "author"@) {
            Err(e) => Err(e),
            Ok(author) => match taxonomies_under(document, "categories"@) {
                Err(e) => Err(e),
                Ok(categories) => match taxonomies_under(document, "tags"@) {
                    Err(e) => Err(e),
                    Ok(tags) => match file_under(document, "featuredImage"@) {
                        Err(e) => Err(e),
                        Ok(featured_image) => match stamp_field(document, "createdAt"@) {
                            Err(e) => Err(e),
                            Ok(created_at) => Ok(
                                PostView {
                                    id: head.id,
                                    title: head.title,
                                    slug: head.slug,
                                    status: head.status,
                                    markdown: head.markdown,
                                    html: head.html,
                                    published_at: optional(stamp_field(document, "publishedAt"@)),
                                    author: Some(author),
                                    categories,
                                    tags,
                                    featured_image,
                                    created_at: Some(created_at),
                                    updated_at: optional(stamp_field(document, "updatedAt"@)),
                                },
                            ),
                        },
                    },
                },
            },
        },
    }
}

impl Post {
    /// Reads a post out of its document, with the author, the taxonomies and
    /// the featured image that are embedded in it.
    pub fn unmarshal_bson(document: &Document) -> (post: Result<Post, ValueAccessError>)
        ensures
            match post {
                Ok(p) => post_of(*document) == Ok::<PostView, AccessFailure>(p@),
                Err(e) => post_of(*document) == Err::<PostView, AccessFailure>(failure_of(e)),
            },
    {
        let id = get_object_id(document, "_id")?;
        let title = read_text(document, "title")?;
        let slug = read_text(document, "slug")?;
        let status = get_int32(document, "status")?;
        let markdown = read_text(document, "markdown")?;
        let html = read_text(document, "html")?;
        let published_at = match get_stamp(document, "publishedAt") {
            Ok(at) => Some(at),
            Err(_) => None,
        };
        let author = User::unmarshal_bson(get_document(document, "author")?)?;
        let categories = Taxonomy::unmarshal_all(get_items(document, "categories")?)?;
        let tags = Taxonomy::unmarshal_all(get_items(document, "tags")?)?;
        let featured_image = match get_document(document, "featuredImage") {
            Ok(inner) => Some(File::unmarshal_bson(inner)?),
            Err(_) => None,
        };
        let created_at = get_stamp(document, "createdAt")?;
        let updated_at = match get_stamp(document, "updatedAt") {
            Ok(at) => Some(at),
            Err(_) => None,
        };
        Ok(
            Post {
                id,
                title,
                slug,
                status,
                markdown,
                html,
                published_at,
                author: Some(author),
                categories,
                tags,
                featured_image,
                created_at: Some(created_at),
                updated_at,
            },
        )
    }
}

/// How far a post has come.
#[derive(Debug, Clone, Copy, PartialEq, Eq, Structural)]
pub enum PostStatus {
    Draft,
    Published,
}

/// What a query on posts sorts by, newest first.
#[derive(Debug, Clone, Copy, PartialEq, Eq, Structural)]
pub enum PostOrder {
    /// By the time of publication.
    PublishedAt,
    /// By the time of creation.
    CreatedAt,
}

/// A query on posts, built step by step.
#[derive(Debug, Clone)]
pub struct PostQuery {
    status: Option<PostStatus>,
    category: Option<Taxonomy>,
    tag: Option<Taxonomy>,
    offset: u32,
    limit: u32,
}

/// What a query on posts asks for.
pub ghost struct PostQueryView {
    pub status: Option<PostStatus>,
    pub category: Option<Taxonomy>,
    pub tag: Option<Taxonomy>,
    pub offset: u32,
    pub limit: u32,
}

impl View for PostQuery {
    type V = PostQueryView;

    closed spec fn view(&self) -> PostQueryView {
        PostQueryView {
            status: self.status,
            category: self.category,
            tag: self.tag,
            offset: self.offset,
            limit: self.limit,
        }
    }
}

/// One step of the listing of posts, in the terms of the query. The store
/// behind the repository turns each step into its own language.
#[derive(Debug, Clone, PartialEq, Eq)]
pub enum PostStage {
    /// Keep the posts of this status.
    MatchStatus(PostStatus),
    /// Sort by this time, newest first.
    SortNewestFirst(PostOrder),
    /// Keep the posts of the category with this identifier.
    MatchCategory(String),
    /// Keep the posts with the tag of this identifier.
    MatchTag(String),
    /// Put author, categories, tags and featured image in place of their
    /// identifiers.
    JoinReferences,
    /// Skip this many posts.
    Skip(u32),
    /// Return at most this many posts.
    Limit(u32),
}

/// The steps that filter by status and sort, where the query has a status.
pub open spec fn status_stages(status: Option<PostStatus>) -> Seq<PostStage> {
    match status {
        Some(s) => seq![
            PostStage::MatchStatus(s),
            PostStage::SortNewestFirst(order_for(status).unwrap()),
        ],
        None => Seq::empty(),
    }
}

/// The step that filters by category, where the query has one.
pub open spec fn category_stages(category: Option<Taxonomy>) -> Seq<PostStage> {
    match category {
        Some(c) => seq![PostStage::MatchCategory(c.id)],
        None => Seq::empty(),
    }
}

/// The step that filters by tag, where the query has one.
pub open spec fn tag_stages(tag: Option<Taxonomy>) -> Seq<PostStage> {
    match tag {
        Some(t) => seq![PostStage::MatchTag(t.id)],
        None => Seq::empty(),
    }
}

/// The steps of a listing: the filters that the query has, in the order
/// status, category, tag, then the references, then the page.
pub open spec fn stages_of(query: PostQueryView) -> Seq<PostStage> {
    status_stages(query.status) + category_stages(query.category) + tag_stages(query.tag) + seq![
        PostStage::JoinReferences,
        PostStage::Skip(query.offset),
        PostStage::Limit(query.limit),
    ]
}

/// The order of the posts that match a status: published posts by their
/// publication, all others by their creation. Without a status filter the
/// posts are not sorted.
pub open spec fn order_for(status: Option<PostStatus>) -> Option<PostOrder> {
    match status {
        Some(PostStatus::Published) => Some(PostOrder::PublishedAt),
        Some(_) => Some(PostOrder::CreatedAt),
        None => None,
    }
}

impl PostQuery {
    /// Starts a query: no filter, the first page, five posts to a page.
    pub fn builder() -> (query: Self)
        ensures
            query@ == (PostQueryView {
                status: None,
                category: None,
                tag: None,
                offset: 0,
                limit: 5,
            }),
    {
        PostQuery { status: None, category: None, tag: None, offset: 0, limit: 5 }
    }

    /// Keeps only posts of the given status.
    pub fn with_status(self, status: PostStatus) -> (query: Self)
        ensures
            query@ == (PostQueryView { status: Some(status), ..self@ }),
    {
        let mut query = self;
        query.status = Some(status);
        query
    }

    /// Keeps only posts of the given category; all categories where there is
    /// none.
    pub fn with_category(self, category: Option<Taxonomy>) -> (query: Self)
        ensures
            query@ == (PostQueryView { category, ..self@ }),
    {
        let mut query = self;
        query.category = category;
        query
    }

    /// Keeps only posts with the given tag; all tags where there is none.
    pub fn with_tag(self, tag: Option<Taxonomy>) -> (query: Self)
        ensures
            query@ == (PostQueryView { tag, ..self@ }),
    {
        let mut query = self;
        query.tag = tag;
        query
    }

    /// Skips the first `offset` posts.
    pub fn with_offset(self, offset: u32) -> (query: Self)
        ensures
            query@ == (PostQueryView { offset, ..self@ }),
    {
        let mut query = self;
        query.offset = offset;
        query
    }

    /// Returns at most `limit` posts.
    pub fn with_limit(self, limit: u32) -> (query: Self)
        ensures
            query@ == (PostQueryView { limit, ..self@ }),
    {
        let mut query = self;
        query.limit = limit;
        query
    }

    /// The status that posts are filtered by.
    pub fn status(&self) -> (status: Option<PostStatus>)
        ensures
            status == self@.status,
    {
        self.status
    }

    /// The category that posts are filtered by.
    pub fn category(&self) -> (category: &Option<Taxonomy>)
        ensures
            *category == self@.category,
    {
        &self.category
    }

    /// The tag that posts are filtered by.
    pub fn tag(&self) -> (tag: &Option<Taxonomy>)
        ensures
            *tag == self@.tag,
    {
        &self.tag
    }

    /// The number of posts that are skipped.
    pub fn offset(&self) -> (offset: u32)
        ensures
            offset == self@.offset,
    {
        self.offset
    }

    /// The number of posts that are returned at most.
    pub fn limit(&self) -> (limit: u32)
        ensures
            limit == self@.limit,
    {
        self.limit
    }

    /// The steps by which the matching posts are listed.
    pub fn stages(&self) -> (stages: Vec<PostStage>)
        ensures
            stages@ == stages_of(self@),
    {
        let mut stages: Vec<PostStage> = Vec::new();
        match self.status {
            Some(status) => {
                stages.push(PostStage::MatchStatus(status));
                match self.order() {
                    Some(order) => {
                        stages.push(PostStage::SortNewestFirst(order));
                    },
                    None => {},
                }
            },
            None => {},
        }
        assert(stages@ =~= status_stages(self@.status));
        match &self.category {
            Some(category) => {
                stages.push(PostStage::MatchCategory(category.id.clone()));
            },
            None => {},
        }
        assert(stages@ =~= status_stages(self@.status) + category_stages(self@.category));
        match &self.tag {
            Some(tag) => {
                stages.push(PostStage::MatchTag(tag.id.clone()));
            },
            None => {},
        }
        assert(stages@ =~= status_stages(self@.status) + category_stages(self@.category)
            + tag_stages(self@.tag));
        stages.push(PostStage::JoinReferences);
        stages.push(PostStage::Skip(self.offset));
        stages.push(PostStage::Limit(self.limit));
        assert(stages@ =~= stages_of(self@));
        stages
    }

    /// The order in which the matching posts are listed.
    pub fn order(&self) -> (order: Option<PostOrder>)
        ensures
            order == order_for(self@.status),
    {
        match self.status {
            Some(PostStatus::Published) => Some(PostOrder::PublishedAt),
            Some(_) => Some(PostOrder::CreatedAt),
            None => None,
        }
    }
}

} // verus!
