//! The PDT store, as far as it is plain data: what it holds, what is asked of
//! it, and what is made of its replies.  Nothing here opens a connection.
pub mod client;
pub mod laws;
pub mod types;
