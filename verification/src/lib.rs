//! An embeddable access layer over a quad-store engine.
//!
//! The layer manages independent store instances by opaque integer handle,
//! ingests and emits RDF serializations, executes declarative queries and
//! projects their results into tabular form, and offers a direct textual
//! term grammar for single-quad mutation.
//!
//! - [`term`]: the textual term codec — `parse` and `serialize`, inverses of
//!   each other on serial-clean terms.
//! - [`format`]: the format resolver, with distinct input and output tables;
//!   output resolution upgrades single-graph formats to quad-capable
//!   supersets.
//! - [`registry`]: the handle-indexed table of engine stores and every
//!   exposed operation.
//! - [`projector`]: the conversion of query results into a uniform
//!   tabular/boolean/triple-table shape.
//! - [`engine`]: the narrow, trusted contract with the storage/query engine;
//!   everything else is verified against it.
//! - [`error`]: the error taxonomy, each variant carrying the offending
//!   input.

pub mod error;
pub mod term;
pub mod format;
pub mod engine;
pub mod projector;
pub mod registry;
