//! Messages between the desktop frontend and the core orchestrator.
//!
//! Paths are raw OS path bytes and floating-point values are IEEE-754 bit
//! patterns, as in [`crate::types`].

use vstd::prelude::*;
use crate::types::{ExportConfig, ExportFormat, GpuInfo, TrainingConfig};

verus! {

/// Events emitted from the backend toward the GUI (training metrics, imports, etc.).
#[derive(Debug, Clone, PartialEq)]
pub enum BackendEvent {
    /// Hardware discovery finished; drives recommendation cards in the dashboard.
    HardwareDetected {
        /// Primary GPU info when available.
        gpu: GpuInfo,
        /// System RAM in gigabytes (rounded).
        ram_gb: u32,
        /// VRAM in megabytes when a discrete GPU is present.
        vram_mb: Option<u32>,
    },
    /// A file import pass has started.
    FileImportStarted {
        /// File name for UI lists.
        filename: String,
    },
    /// Per-file progress for Data Forge.
    FileImportProgress {
        /// File name for UI lists.
        filename: String,
        /// Normalized progress in `[0.0, 1.0]`, as the bits of an `f32`.
        percent_bits: u32,
    },
    /// File successfully ingested into chunks or training rows.
    FileImportCompleted {
        /// File name for UI lists.
        filename: String,
        /// Number of chunks or rows produced.
        chunks: usize,
    },
    /// File import failed; surface to toast + log.
    FileImportFailed {
        /// File name for UI lists.
        filename: String,
        /// Human-readable failure reason.
        error: String,
    },
    /// Training job accepted by the orchestrator.
    TrainingStarted {
        /// Correlates metrics with UI state.
        job_id: String,
        /// Model display name.
        model_name: String,
    },
    /// Streaming training metrics for charts and logs.
    TrainingMetrics {
        /// Correlates metrics with UI state.
        job_id: String,
        /// Current epoch (1-based UI convention).
        epoch: u32,
        /// Optimizer step counter.
        step: u32,
        /// Scalar loss from the trainer, as the bits of an `f64`.
        loss_bits: u64,
        /// Current learning rate, as the bits of an `f64`.
        lr_bits: u64,
    },
    /// Training produced an adapter bundle.
    TrainingCompleted {
        /// Correlates metrics with UI state.
        job_id: String,
        /// Adapter directory on disk (OS path bytes).
        adapter_path: Vec<u8>,
    },
    /// Training stopped with an error.
    TrainingFailed {
        /// Correlates metrics with UI state.
        job_id: String,
        /// Human-readable failure reason.
        error: String,
    },
    /// Single decoded token for streaming chat UIs.
    InferenceTokenGenerated {
        /// UTF-8 token text fragment.
        token: String,
    },
    /// Final inference statistics after a completion.
    InferenceCompleted {
        /// Full assistant response text.
        full_response: String,
        /// Throughput estimate in tokens per second, as the bits of an `f32`.
        tokens_per_second_bits: u32,
    },
    /// RAG indexer progress.
    RagIndexingProgress {
        /// Documents processed so far.
        documents_processed: usize,
        /// Total documents scheduled.
        total: usize,
    },
    /// Retrieved chunks for optional inspector UI.
    RagSearchResults {
        /// Context snippets injected into the prompt.
        context_chunks: Vec<String>,
        /// Similarity scores aligned with `context_chunks`, as `f32` bits.
        scores_bits: Vec<u32>,
    },
    /// Hugging Face Hub or mirror download progress.
    ModelDownloadProgress {
        /// Logical model identifier.
        model_id: String,
        /// Normalized progress in `[0.0, 1.0]`, as the bits of an `f32`.
        percent_bits: u32,
        /// Throughput estimate in megabytes per second, as the bits of an `f32`.
        speed_mbps_bits: u32,
    },
    /// Model artifact available locally.
    ModelDownloadCompleted {
        /// Logical model identifier.
        model_id: String,
        /// On-disk location of weights/config (OS path bytes).
        path: Vec<u8>,
    },
    /// Export pipeline finished successfully.
    ExportCompleted {
        /// Format that was produced.
        format: ExportFormat,
        /// Primary output path, file or directory (OS path bytes).
        path: Vec<u8>,
    },
}

/// Commands issued by the GUI to the backend task graph.
#[derive(Debug, Clone, PartialEq)]
#[allow(inconsistent_fields)]
pub enum GuiCommand {
    /// Import and normalize user files into the active workspace.
    ImportFiles {
        /// Absolute paths chosen via dialog or drag-and-drop (OS path bytes).
        paths: Vec<Vec<u8>>,
    },
    /// Start a training job with the given hyperparameters.
    StartTraining {
        /// Training configuration validated in the UI shell.
        config: TrainingConfig,
    },
    /// Request cooperative cancellation of a running job.
    StopTraining {
        /// Target job identifier.
        job_id: String,
    },
    /// Send a user chat turn to the inference engine.
    SendChatMessage {
        /// User message text.
        message: String,
        /// When true, run retrieval before generation.
        use_rag: bool,
    },
    /// Merge, quantize, or bundle artifacts for distribution.
    ExportModel {
        /// Export parameters from the packager UI.
        config: ExportConfig,
    },
    /// Download or refresh a model from the Hub (explicit user action).
    DownloadModel {
        /// Hub model id, e.g. `meta-llama/Meta-Llama-3-8B-Instruct`.
        model_id: String,
    },
    /// Trigger a fresh hardware capability scan.
    DetectHardware,
}


/// The stable name of the kind of `e`, without its payload (for logs).
pub open spec fn event_tag(e: BackendEvent) -> Seq<char> {
    match e {
        BackendEvent::HardwareDetected { .. } => "HardwareDetected"@,
        BackendEvent::FileImportStarted { .. } => "FileImportStarted"@,
        BackendEvent::FileImportProgress { .. } => "FileImportProgress"@,
        BackendEvent::FileImportCompleted { .. } => "FileImportCompleted"@,
        BackendEvent::FileImportFailed { .. } => "FileImportFailed"@,
        BackendEvent::TrainingStarted { .. } => "TrainingStarted"@,
        BackendEvent::TrainingMetrics { .. } => "TrainingMetrics"@,
        BackendEvent::TrainingCompleted { .. } => "TrainingCompleted"@,
        BackendEvent::TrainingFailed { .. } => "TrainingFailed"@,
        BackendEvent::InferenceTokenGenerated { .. } => "InferenceTokenGenerated"@,
        BackendEvent::InferenceCompleted { .. } => "InferenceCompleted"@,
        BackendEvent::RagIndexingProgress { .. } => "RagIndexingProgress"@,
        BackendEvent::RagSearchResults { .. } => "RagSearchResults"@,
        BackendEvent::ModelDownloadProgress { .. } => "ModelDownloadProgress"@,
        BackendEvent::ModelDownloadCompleted { .. } => "ModelDownloadCompleted"@,
        BackendEvent::ExportCompleted { .. } => "ExportCompleted"@,
    }
}

/// The stable name of the kind of `e`, without its payload (for logs).
pub fn backend_event_tag(e: &BackendEvent) -> (r: &'static str)
    ensures
        r@ == event_tag(*e),
{
    match e {
        BackendEvent::HardwareDetected { .. } => "HardwareDetected",
        BackendEvent::FileImportStarted { .. } => "FileImportStarted",
        BackendEvent::FileImportProgress { .. } => "FileImportProgress",
        BackendEvent::FileImportCompleted { .. } => "FileImportCompleted",
        BackendEvent::FileImportFailed { .. } => "FileImportFailed",
        BackendEvent::TrainingStarted { .. } => "TrainingStarted",
        BackendEvent::TrainingMetrics { .. } => "TrainingMetrics",
        BackendEvent::TrainingCompleted { .. } => "TrainingCompleted",
        BackendEvent::TrainingFailed { .. } => "TrainingFailed",
        BackendEvent::InferenceTokenGenerated { .. } => "InferenceTokenGenerated",
        BackendEvent::InferenceCompleted { .. } => "InferenceCompleted",
        BackendEvent::RagIndexingProgress { .. } => "RagIndexingProgress",
        BackendEvent::RagSearchResults { .. } => "RagSearchResults",
        BackendEvent::ModelDownloadProgress { .. } => "ModelDownloadProgress",
        BackendEvent::ModelDownloadCompleted { .. } => "ModelDownloadCompleted",
        BackendEvent::ExportCompleted { .. } => "ExportCompleted",
    }
}

/// The stable name of the kind of `c`, without its payload (for logs).
pub open spec fn command_tag(c: GuiCommand) -> Seq<char> {
    match c {
        GuiCommand::DetectHardware => "DetectHardware"@,
        GuiCommand::StartTraining { .. } => "StartTraining"@,
        GuiCommand::StopTraining { .. } => "StopTraining"@,
        GuiCommand::ImportFiles { .. } => "ImportFiles"@,
        GuiCommand::SendChatMessage { .. } => "SendChatMessage"@,
        GuiCommand::ExportModel { .. } => "ExportModel"@,
        GuiCommand::DownloadModel { .. } => "DownloadModel"@,
    }
}

/// The stable name of the kind of `c`, without its payload (for logs).
pub fn gui_command_tag(c: &GuiCommand) -> (r: &'static str)
    ensures
        r@ == command_tag(*c),
{
    match c {
        GuiCommand::DetectHardware => "DetectHardware",
        GuiCommand::StartTraining { .. } => "StartTraining",
        GuiCommand::StopTraining { .. } => "StopTraining",
        GuiCommand::ImportFiles { .. } => "ImportFiles",
        GuiCommand::SendChatMessage { .. } => "SendChatMessage",
        GuiCommand::ExportModel { .. } => "ExportModel",
        GuiCommand::DownloadModel { .. } => "DownloadModel",
    }
}

} // verus!
