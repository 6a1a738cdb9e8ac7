//! OmniForge library: shared domain types, hardware heuristics, training
//! orchestration decisions, data import, and the status text shown by the
//! desktop shell.

pub mod data_pipeline;
pub mod downloader;
pub mod error;
pub mod events;
pub mod fspath;
pub mod gui;
pub mod hal;
pub mod inference;
pub mod model_registry;
pub mod paths;
pub mod rag;
pub mod runtime;
pub mod text;
pub mod training;
pub mod types;
