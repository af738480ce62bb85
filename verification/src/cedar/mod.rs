//! Who may do what.
pub mod enforcement;
pub mod entity;
pub mod laws;
