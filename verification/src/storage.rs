//! Files as the store records them.

pub mod file;
