//! A persistent store for taxonomies and the marine species that refer to them.
//!
//! Records live in stable memory, one ordered map and one id counter per
//! collection. Every operation validates its payload, checks ownership where
//! it mutates a record, and either takes effect completely or leaves the
//! stored state as it was.

pub mod authorization;
pub mod codec;
pub mod database;
pub mod error;
pub mod id_allocator;
pub mod laws;
pub mod listing;
pub mod marinespecie;
pub mod marinespecie_service;
pub mod model;
pub mod record_store;
pub mod region_manager;
pub mod stable;
pub mod taxonomy;
pub mod taxonomy_service;
pub mod text;
pub mod validation;
