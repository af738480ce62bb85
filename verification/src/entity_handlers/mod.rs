//! The handlers that serve every kind of entity.
pub mod create;
pub mod create_laws;
pub mod field_laws;
pub mod filter_laws;
pub mod listing;
pub mod listing_laws;
pub mod mapping;
pub mod mapping_laws;
pub mod permission_laws;
pub mod read_back_laws;
pub mod route_laws;
pub mod routes;
pub mod store_laws;
pub mod update;
pub mod update_laws;
