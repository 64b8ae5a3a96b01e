//! The store's records and the requests the library makes of the store.

pub mod models;
pub mod repository;
