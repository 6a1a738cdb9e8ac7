//! GGUF inference engine facade.

use vstd::prelude::*;
use crate::error::OmniForgeError;
use crate::inference::config::InferenceParams;
use vstd::string::StringExecFns;

verus! {

/// Abstracts llama.cpp-backed streaming generation.
pub struct InferenceEngine;

/// The message of the error that inference reports while no backend is wired.
pub open spec fn engine_unwired_text() -> Seq<char> {
    "inference engine not yet wired to llama.cpp"@
}

impl InferenceEngine {
    /// Runs a single user turn; no generation backend is wired yet, so every
    /// turn fails with a model error that says so.
    pub fn complete(prompt: &str, params: &InferenceParams) -> (r: Result<String, OmniForgeError>)
        ensures
            r matches Err(OmniForgeError::Model { message }) && message@ == engine_unwired_text(),
    {
        Err(OmniForgeError::Model { message: String::from_str("inference engine not yet wired to llama.cpp") })
    }
}

} // verus!
