//! A bulk file-indexing pipeline: paths and their filesystem attributes
//! become records, records are grouped into bounded batches, and each batch
//! is written to a SQLite snapshot table in one transaction, with failures
//! aggregated across batches. The snapshot fully replaces the previous
//! run's contents.
//!
//! The crate holds the pipeline's logic and contracts; walking a real
//! directory tree, reading file metadata, and driving writers in parallel
//! are left to the embedding program, which feeds plain values in and
//! performs actions as the run's coordinator directs.

pub mod batch;
pub mod coordinator;
pub mod extract;
pub mod record;
pub mod store;
pub mod timefmt;
