//! Runtime sampling parameters for chat and batch inference.

use vstd::prelude::*;

verus! {

/// User-tunable decoding configuration mapped to llama.cpp flags.
#[derive(Debug, Clone, Copy, PartialEq, Eq)]
pub struct InferenceParams {
    /// Softmax temperature, as the bits of an `f32`.
    pub temperature_bits: u32,
    /// Top-p nucleus sampling threshold, as the bits of an `f32`.
    pub top_p_bits: u32,
    /// Maximum new tokens per completion.
    pub max_tokens: u32,
}

impl Default for InferenceParams {
    /// Temperature 0.8, top-p 0.95, 512 new tokens at most.
    fn default() -> (r: Self)
        ensures
            r.temperature_bits == 0x3f4c_cccd,
            r.top_p_bits == 0x3f73_3333,
            r.max_tokens == 512,
    {
        InferenceParams { temperature_bits: 0x3f4c_cccd, top_p_bits: 0x3f73_3333, max_tokens: 512 }
    }
}

} // verus!
