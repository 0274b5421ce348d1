//! Donation registry core: collections, achievement records and their
//! aggregation engine.
//!
//! A repository issues creator credentials and instantiates collections; a
//! collection accepts donations and mints or updates trophy and membership
//! records through the shared class managers; the repository can later merge
//! several same-identity records into one consolidated record.

pub mod collection;
pub mod credentials;
pub mod data;
pub mod dates;
pub mod errors;
pub mod laws;
pub mod managers;
pub mod repository;
pub mod store;
pub mod text;
pub mod util;
