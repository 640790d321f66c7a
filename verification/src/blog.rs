//! The blog's posts and taxonomies: their records and the queries on them.

pub mod post;
pub mod taxonomy;
