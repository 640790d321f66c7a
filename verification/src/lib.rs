//! The verified core of the blog's gRPC services: bearer-token
//! authentication of every call, the records of the store and how they are
//! read and written, the queries that the services hand to their
//! repositories, and what the services decide.

pub mod auth;
pub mod blog;
pub mod discussion;
pub mod encoding;
pub mod storage;
