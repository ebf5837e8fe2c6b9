//! An in-memory key-value store with an administrative scope and the
//! decisions of its request pipeline, stated over mathematical models.
pub mod admin;
pub mod auth;
pub mod keys;
pub mod laws;
pub mod pipeline;
pub mod status;
pub mod store;
