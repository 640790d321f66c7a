//! Bearer-token authentication, from the `Authorization` header of a call to
//! the principal that the call is made for, and the users of the blog.

pub mod bearer;
pub mod claims;
pub mod clock;
pub mod interceptor;
pub mod json;
pub mod keys;
pub mod laws;
pub mod machine;
pub mod service;
pub mod text;
pub mod token;
pub mod user;
pub mod validate;

pub use interceptor::{intercept, Interceptor, Outcome};
