//! Cross-cutting domain types shared between the desktop shell and the core.
//!
//! Filesystem paths are held as the raw bytes of the OS path (the project
//! targets Linux, where a path is a byte string). Floating-point quantities are
//! held as their IEEE-754 bit patterns (`f64::to_bits` / `f32::to_bits`): the
//! library only carries them, and the shell converts at its edge.

use vstd::prelude::*;

verus! {

/// Describes a detected or configured GPU/accelerator.
#[derive(Debug, Clone, PartialEq, Eq)]
pub struct GpuInfo {
    /// Vendor string, e.g. "NVIDIA", "AMD".
    pub vendor: String,
    /// Short model label when known.
    pub model: Option<String>,
    /// Dedicated video memory in megabytes, if applicable.
    pub vram_mb: Option<u32>,
    /// Driver or stack version string when discoverable.
    pub driver_version: Option<String>,
}

/// User-selected export target for a packaged model.
#[derive(Debug, Clone, Copy, PartialEq, Eq, Structural)]
pub enum ExportFormat {
    /// Portable GGUF weights for llama.cpp-compatible runtimes.
    Gguf,
    /// Ollama `Modelfile` plus local path hints.
    Ollama,
    /// Local OpenAI-compatible HTTP API (localhost).
    LocalApi,
}

/// Quantization strategy for QLoRA-style training.
#[derive(Debug, Clone, Copy, PartialEq, Eq, Structural)]
pub enum QuantizationMode {
    /// 4-bit NF4 (typical QLoRA).
    FourBit,
    /// 8-bit linear quantization.
    EightBit,
    /// No quantization (requires sufficient VRAM).
    Unquantized,
}

/// Parameters for a LoRA / QLoRA training job initiated from the GUI.
#[derive(Debug, Clone, PartialEq, Eq)]
pub struct TrainingConfig {
    /// Stable identifier used for logs and cancellation.
    pub job_id: String,
    /// Display name of the base model artifact.
    pub model_name: String,
    /// Absolute path to the workspace project root (OS path bytes).
    pub workspace: Vec<u8>,
    /// Path to dataset manifest or `jsonl` produced by Data Forge (OS path bytes).
    pub dataset_path: Vec<u8>,
    /// Learning rate (e.g. 2e-4), as the bit pattern of an `f64`.
    pub learning_rate_bits: u64,
    /// LoRA rank.
    pub lora_rank: u32,
    /// LoRA alpha.
    pub lora_alpha: u32,
    /// Number of training epochs.
    pub epochs: u32,
    /// Micro batch size; may be auto-tuned by HAL before start.
    pub batch_size: u32,
    /// Quantization mode for the base weights during tuning.
    pub quantization: QuantizationMode,
}

/// Options for merging adapters and publishing artifacts.
#[derive(Debug, Clone, PartialEq, Eq)]
pub struct ExportConfig {
    /// Target export format.
    pub format: ExportFormat,
    /// Path to the base model directory or file (OS path bytes).
    pub base_model: Vec<u8>,
    /// Path to the trained adapter directory (OS path bytes).
    pub adapter_path: Vec<u8>,
    /// Output directory for generated artifacts (OS path bytes).
    pub output_dir: Vec<u8>,
    /// Optional GGUF quantization preset label (e.g. "Q4_K_M").
    pub gguf_preset: Option<String>,
}

/// The characters of an optional string.
pub open spec fn opt_chars(o: Option<String>) -> Option<Seq<char>> {
    match o {
        Some(s) => Some(s@),
        None => None,
    }
}

/// Mathematical model of a [`GpuInfo`]: its strings as character sequences.
pub struct GpuInfoView {
    pub vendor: Seq<char>,
    pub model: Option<Seq<char>>,
    pub vram_mb: Option<u32>,
    pub driver_version: Option<Seq<char>>,
}

impl View for GpuInfo {
    type V = GpuInfoView;

    open spec fn view(&self) -> GpuInfoView {
        GpuInfoView {
            vendor: self.vendor@,
            model: opt_chars(self.model),
            vram_mb: self.vram_mb,
            driver_version: opt_chars(self.driver_version),
        }
    }
}

} // verus!
