//! Taxonomies, the categories and tags of posts, and the query on them.

use vstd::prelude::*;

use mongodb::bson::document::ValueAccessError;
use mongodb::bson::{Bson, Document};

use crate::encoding::bson::{
    as_document, bson_document, failure_of, get_int32, get_object_id, int32_field,
    object_id_field, read_text, text_field, AccessFailure,
};

verus! {

/// What a taxonomy groups posts by.
#[derive(Debug, Clone, Copy, PartialEq, Eq, Structural)]
pub enum TaxonomyType {
    Category,
    Tag,
}

/// A category or a tag.
#[derive(Debug, Clone, PartialEq, Eq)]
pub struct Taxonomy {
    pub id: String,
    pub name: String,
    pub slug: String,
    /// The number of the taxonomy's type on the wire.
    pub taxonomy_type: i32,
}

/// What a taxonomy holds.
pub ghost struct TaxonomyView {
    pub id: Seq<char>,
    pub name: Seq<char>,
    pub slug: Seq<char>,
    pub taxonomy_type: i32,
}

impl View for Taxonomy {
    type V = TaxonomyView;

    open spec fn view(&self) -> TaxonomyView {
        TaxonomyView {
            id: self.id@,
            name: self.name@,
            slug: self.slug@,
            taxonomy_type: self.taxonomy_type,
        }
    }
}

/// The taxonomy that a document records, or why it records none: the first
/// of `_id`, `name`, `slug` and `type` that cannot be read.
pub open spec fn taxonomy_of(document: Document) -> Result<TaxonomyView, AccessFailure> {
    match object_id_field(document, "_id"@) {
        Err(e) => Err(e),
        Ok(id) => match text_field(document, "name"@) {
            Err(e) => Err(e),
            Ok(name) => match text_field(document, "slug"@) {
                Err(e) => Err(e),
                Ok(slug) => match int32_field(document, "type"@) {
                    Err(e) => Err(e),
                    Ok(taxonomy_type) => Ok(TaxonomyView { id, name, slug, taxonomy_type }),
                },
            },
        },
    }
}

/// The taxonomies that the documents among `items` record, in order, or the
/// failure of the first that records none. Elements that are no documents are
/// passed over.
pub open spec fn taxonomies_of(items: Seq<Bson>) -> Result<Seq<TaxonomyView>, AccessFailure>
    decreases items.len(),
{
    if items.len() == 0 {
        Ok(Seq::empty())
    } else {
        match taxonomies_of(items.drop_last()) {
            Err(e) => Err(e),
            Ok(before) => match bson_document(items.last()) {
                None => Ok(before),
                Some(document) => match taxonomy_of(document) {
                    Err(e) => Err(e),
                    Ok(taxonomy) => Ok(before.push(taxonomy)),
                },
            },
        }
    }
}

/// A failure among the first elements is the failure of the whole.
pub proof fn lemma_taxonomies_fail_early(items: Seq<Bson>, n: int)
    requires
        0 <= n <= items.len(),
        taxonomies_of(items.take(n)) is Err,
    ensures
        taxonomies_of(items) == taxonomies_of(items.take(n)),
    decreases items.len() - n,
{
    if n < items.len() {
        assert(items.take(n + 1).drop_last() =~= items.take(n));
        lemma_taxonomies_fail_early(items, n + 1);
    } else {
        assert(items.take(n) =~= items);
    }
}

/// The views of a sequence of taxonomies.
pub open spec fn taxonomy_views(list: Seq<Taxonomy>) -> Seq<TaxonomyView> {
    Seq::new(list.len(), |i: int| list[i]@)
}

impl Taxonomy {
    /// Reads a taxonomy out of its document.
    pub fn unmarshal_bson(document: &Document) -> (taxonomy: Result<Taxonomy, ValueAccessError>)
        ensures
            match taxonomy {
                Ok(t) => taxonomy_of(*document) == Ok::<TaxonomyView, AccessFailure>(t@),
                Err(e) => taxonomy_of(*document) == Err::<TaxonomyView, AccessFailure>(
                    failure_of(e),
                ),
            },
    {
        let id = get_object_id(document, "_id")?;
        let name = read_text(document, "name")?;
        let slug = read_text(document, "slug")?;
        let taxonomy_type = get_int32(document, "type")?;
        Ok(Taxonomy { id, name, slug, taxonomy_type })
    }

    /// Reads the taxonomies out of the documents among `items`.
    pub fn unmarshal_all(items: &Vec<Bson>) -> (list: Result<Vec<Taxonomy>, ValueAccessError>)
        ensures
            match list {
                Ok(l) => taxonomies_of(items@) == Ok::<Seq<TaxonomyView>, AccessFailure>(
                    taxonomy_views(l@),
                ),
                Err(e) => taxonomies_of(items@) == Err::<Seq<TaxonomyView>, AccessFailure>(
                    failure_of(e),
                ),
            },
    {
        let mut list: Vec<Taxonomy> = Vec::new();
        let mut i: usize = 0;
        assert(items@.take(0) =~= Seq::<Bson>::empty());
        assert(taxonomy_views(list@) =~= Seq::<TaxonomyView>::empty());
        while i < items.len()
            invariant
                i <= items@.len(),
                taxonomies_of(items@.take(i as int)) == Ok::<Seq<TaxonomyView>, AccessFailure>(
                    taxonomy_views(list@),
                ),
            decreases items@.len() - i,
        {
            let ghost before = taxonomy_views(list@);
            proof {
                assert(items@.take(i + 1).drop_last() =~= items@.take(i as int));
                assert(items@.take(i + 1).last() == items@[i as int]);
            }
            match as_document(&items[i]) {
                Some(document) => match Taxonomy::unmarshal_bson(document) {
                    Ok(taxonomy) => {
                        list.push(taxonomy);
                        assert(taxonomy_views(list@) =~= before.push(taxonomy@));
                    },
                    Err(e) => {
                        proof {
                            lemma_taxonomies_fail_early(items@, i + 1);
                        }
                        return Err(e);
                    },
                },
                None => {},
            }
            i += 1;
        }
        assert(items@.take(i as int) =~= items@);
        Ok(list)
    }
}

/// A query on taxonomies: those of one type.
#[derive(Debug, Clone, Copy)]
pub struct TaxonomyQuery {
    taxonomy_type: TaxonomyType,
}

impl TaxonomyQuery {
    /// The type that the query asks for.
    pub closed spec fn wanted(&self) -> TaxonomyType {
        self.taxonomy_type
    }

    /// Starts a query, which asks for categories.
    pub fn builder() -> (query: Self)
        ensures
            query.wanted() == TaxonomyType::Category,
    {
        TaxonomyQuery { taxonomy_type: TaxonomyType::Category }
    }

    /// Asks for taxonomies of the given type.
    pub fn with_type(self, taxonomy_type: TaxonomyType) -> (query: Self)
        ensures
            query.wanted() == taxonomy_type,
    {
        TaxonomyQuery { taxonomy_type }
    }

    /// The type that the query asks for.
    pub fn taxonomy_type(&self) -> (taxonomy_type: TaxonomyType)
        ensures
            taxonomy_type == self.wanted(),
    {
        self.taxonomy_type
    }
}

impl Default for TaxonomyQuery {
    fn default() -> (query: Self)
        ensures
            query.wanted() == TaxonomyType::Category,
    {
        TaxonomyQuery { taxonomy_type: TaxonomyType::Category }
    }
}

} // verus!
