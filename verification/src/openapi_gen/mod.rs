//! The API description of every kind of entity.
pub mod laws;
pub mod path_laws;
pub mod paths;
pub mod required;
pub mod schema_laws;
pub mod schemas;
