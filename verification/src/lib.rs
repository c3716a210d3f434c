//! Zero-copy decoding of typed records out of an in-memory byte buffer.
pub mod errors;
pub mod decl;
pub mod declarative;
pub mod array;
pub mod primitives;
pub mod types;
pub mod font;
pub mod attributes;
pub mod generate;
