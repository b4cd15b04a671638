//! A read-only lookup of the schema of a namespace: its tables, their columns
//! and the type of each column.
//!
//! - `schema`: the schema as a catalog hands it out, and its model.
//! - `proto`: the wire form, and the conversion to it.
//! - `catalog`: what the lookup needs from a catalog, and catalog errors.
//! - `mem`: a catalog held in memory.
//! - `service`: the lookup handler.

pub mod catalog;
pub mod mem;
pub mod proto;
pub mod schema;
pub mod service;

pub use service::SchemaService;
