//! Facade for Agent Memory: the decisions of a config-driven entity server over
//! PDT.
//!
//! Nothing here reads a file or opens a connection.  A function that needs
//! something from outside makes the request for it, and another takes what came
//! back.
pub mod api;
pub mod auth;
pub mod cedar;
pub mod config;
pub mod config_laws;
pub mod entity_config;
pub mod entity_config_laws;
pub mod entity_handlers;
pub mod hashing;
pub mod json;
pub mod json_laws;
pub mod keyed;
pub mod objects;
pub mod openapi_gen;
pub mod pdt;
pub mod tags;
pub mod tags_laws;
pub mod text;
pub mod text_laws;
