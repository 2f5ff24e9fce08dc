//! A small embedded-database demo library: a bootstrapper that fills an
//! in-memory SQLite instance with a reproducible, seeded synthetic dataset,
//! and a query executor that runs one SQL statement and renders the result
//! as a JSON text that preserves both column order and row order.
//!
//! The output shape is an object with a `columns` array (the authoritative
//! column order, as the engine reports it) and a `data` array of row
//! objects; see `json::spec_result_json`.

pub mod dataset;
pub mod db;
pub mod engine;
pub mod json;
pub mod numtext;
pub mod rng;
pub mod script;
