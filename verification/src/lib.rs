//! Measurement engine for comparing a tagged binary encoding (Protocol
//! Buffers) with a text encoding (JSON): deterministic fixtures, the mapping
//! between two versions of one schema, the rules that turn raw observations
//! into comparison results, and the majority vote over those results.

pub mod benchmark;
pub mod compress;
pub mod document;
pub mod evolved;
pub mod json;
pub mod metadata;
pub mod person;
pub mod schema;
pub mod test_data;
pub mod text;
