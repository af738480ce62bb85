//! Who is asking.
pub mod config;
pub mod error;
pub mod extractor;
pub mod laws;
pub mod middleware;
pub mod validator;
