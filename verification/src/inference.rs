//! Local inference: sampling parameters and the GGUF engine facade.

pub mod config;
pub mod engine;
