//! A library for syndicated-feed aggregates: the feed and feed-item data
//! model with content-addressed change detection, and a persistence-backend
//! independent storage capability interface with generic batch operations
//! derived from the single-entity primitives.
//!
//! Every feed and feed item carries a checksum: the SHA3-256 digest of the
//! aggregate's canonical serialized form, re-derived on every content
//! mutation. A feed's item collection is either a bare list of item
//! identifiers or a fully materialized list of items; hydration resolves the
//! former into the latter through the store, compaction is the reverse.

pub mod batch;
pub mod checksum;
pub mod errors;
pub mod ids;
pub mod mem_store;
pub mod model;
pub mod service;
pub mod store;
