//! How the records of the store are read.

pub mod bson;
