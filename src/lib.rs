//! Data-access core for a store of book items: identifier text codec,
//! collection naming, connection settings, query plans for the document
//! store, and an in-memory repository with the full CRUD contract.

pub mod codec;
pub mod collection;
pub mod models;
pub mod error;
pub mod connection;
pub mod order;
pub mod query;
pub mod laws;
pub mod memory;
pub mod repository;
