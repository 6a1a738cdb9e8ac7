//! High-level smoke tests for the core.

use omniforge::data_pipeline::ingest::import_outcome;
use omniforge::inference::config::InferenceParams;
use omniforge::inference::engine::InferenceEngine;
use omniforge::rag::chunker::{DEFAULT_CHUNK_OVERLAP, DEFAULT_CHUNK_TOKENS};

#[test]
fn ingest_path_stub_counts() {
    // The metadata of the temporary directory: it exists and is a directory.
    let metadata: Result<bool, std::io::Error> = Ok(true);
    let count = import_outcome(metadata).expect("import temp dir");
    assert_eq!(count, 1);
}

#[test]
fn inference_engine_stub_errors() {
    let err = InferenceEngine::complete("ping", &InferenceParams::default())
        .expect_err("engine should be unconfigured in scaffold");
    let msg = err.describe();
    assert!(msg.contains("llama"), "unexpected error: {msg}");
}

#[test]
fn rag_constants_sane() {
    assert!(DEFAULT_CHUNK_OVERLAP < DEFAULT_CHUNK_TOKENS);
}
