//! Data Forge: importing user files and formatting them for fine-tuning.

pub mod formatter;
pub mod ingest;
