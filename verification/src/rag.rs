//! Retrieval-augmented generation.

pub mod chunker;
