//! The comments of a discussion: their records, the query on them and what
//! the service decides.

pub mod comment;
pub mod service;
