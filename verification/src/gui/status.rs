//! The status line of the desktop shell: what it says while starting, while
//! hardware is detected, and after each backend event.

use vstd::prelude::*;
use crate::events::BackendEvent;
use crate::types::GpuInfo;
use crate::text::{decimal, decimal_string, lossy_text, lossy_utf8};
use vstd::string::StringExecFns;

verus! {

/// The status shown once the shell is connected to the core.
pub open spec fn ready_text() -> Seq<char> {
    "Bereit — verbunden mit lokalem OmniForge-Core."@
}

/// The status shown once the shell is connected to the core.
pub fn ready_status() -> (r: String)
    ensures
        r@ == ready_text(),
{
    String::from_str("Bereit — verbunden mit lokalem OmniForge-Core.")
}

/// The status shown while the hardware is being detected.
pub open spec fn detecting_text() -> Seq<char> {
    "Hardware wird ermittelt …"@
}

/// The status shown while the hardware is being detected.
pub fn detecting_status() -> (r: String)
    ensures
        r@ == detecting_text(),
{
    String::from_str("Hardware wird ermittelt …")
}

/// The status shown when a command could not be handed to the core, whose
/// error reads `reason`.
pub open spec fn unreachable_text(reason: Seq<char>) -> Seq<char> {
    "Backend nicht erreichbar: "@ + reason
}

/// The status shown when a command could not be handed to the core.
pub fn unreachable_status(reason: &str) -> (r: String)
    ensures
        r@ == unreachable_text(reason@),
{
    let mut r = String::from_str("Backend nicht erreichbar: ");
    r.append(reason);
    r
}

/// The status line for `event`, for the events whose line holds only text and
/// whole numbers; `None` for the others (metrics, progress and statistics
/// with fractional numbers, and events shown by their debug form).
pub open spec fn event_text(event: BackendEvent) -> Option<Seq<char>> {
    match event {
        BackendEvent::HardwareDetected { gpu, ram_gb, vram_mb } => {
            let model = match gpu.model {
                Some(m) => m@,
                None => "Unbekanntes Modell"@,
            };
            let vram = match vram_mb {
                Some(m) => decimal(m as nat) + " MiB VRAM"@,
                None => "VRAM unbekannt"@,
            };
            Some(
                gpu.vendor@ + " — "@ + model + " — System-RAM ca. "@ + decimal(ram_gb as nat)
                    + " GB — "@ + vram,
            )
        },
        BackendEvent::TrainingCompleted { job_id, adapter_path } => Some(
            "Training "@ + job_id@ + " abgeschlossen — Adapter: "@ + lossy_utf8(adapter_path@),
        ),
        BackendEvent::TrainingFailed { job_id, error } => Some(
            "Training "@ + job_id@ + " fehlgeschlagen: "@ + error@,
        ),
        BackendEvent::FileImportStarted { filename } => Some("Import startet: "@ + filename@),
        BackendEvent::FileImportCompleted { filename, chunks } => Some(
            "Import fertig: "@ + filename@ + " ("@ + decimal(chunks as nat) + " Chunks)"@,
        ),
        BackendEvent::FileImportFailed { filename, error } => Some(
            "Import fehlgeschlagen ("@ + filename@ + "): "@ + error@,
        ),
        _ => None,
    }
}

/// The status line for `event`, where it holds only text and whole numbers.
pub fn status_for_event(event: &BackendEvent) -> (r: Option<String>)
    ensures
        match event_text(*event) {
            Some(t) => r matches Some(s) && s@ == t,
            None => r is None,
        },
{
    match event {
        BackendEvent::HardwareDetected { gpu, ram_gb, vram_mb } => {
            let mut s = gpu.vendor.clone();
            s.append(" — ");
            match &gpu.model {
                Some(m) => s.append(m.as_str()),
                None => s.append("Unbekanntes Modell"),
            }
            s.append(" — System-RAM ca. ");
            let ram = decimal_string(*ram_gb as u64);
            s.append(ram.as_str());
            s.append(" GB — ");
            match vram_mb {
                Some(m) => {
                    let v = decimal_string(*m as u64);
                    s.append(v.as_str());
                    s.append(" MiB VRAM");
                },
                None => s.append("VRAM unbekannt"),
            }
            Some(s)
        },
        BackendEvent::TrainingCompleted { job_id, adapter_path } => {
            let mut s = String::from_str("Training ");
            s.append(job_id.as_str());
            s.append(" abgeschlossen — Adapter: ");
            let shown = lossy_text(adapter_path.as_slice());
            s.append(shown.as_str());
            Some(s)
        },
        BackendEvent::TrainingFailed { job_id, error } => {
            let mut s = String::from_str("Training ");
            s.append(job_id.as_str());
            s.append(" fehlgeschlagen: ");
            s.append(error.as_str());
            Some(s)
        },
        BackendEvent::FileImportStarted { filename } => {
            let mut s = String::from_str("Import startet: ");
            s.append(filename.as_str());
            Some(s)
        },
        BackendEvent::FileImportCompleted { filename, chunks } => {
            let mut s = String::from_str("Import fertig: ");
            s.append(filename.as_str());
            s.append(" (");
            let n = decimal_string(*chunks as u64);
            s.append(n.as_str());
            s.append(" Chunks)");
            Some(s)
        },
        BackendEvent::FileImportFailed { filename, error } => {
            let mut s = String::from_str("Import fehlgeschlagen (");
            s.append(filename.as_str());
            s.append("): ");
            s.append(error.as_str());
            Some(s)
        },
        _ => None,
    }
}

/// The hardware line does not depend on the driver version: two detections
/// that differ only in it give the same line.
pub proof fn lemma_hardware_line_ignores_driver(
    gpu: GpuInfo,
    other: Option<String>,
    ram_gb: u32,
    vram_mb: Option<u32>,
)
    ensures
        event_text(BackendEvent::HardwareDetected { gpu, ram_gb, vram_mb }) == event_text(
            BackendEvent::HardwareDetected {
                gpu: GpuInfo { driver_version: other, ..gpu },
                ram_gb,
                vram_mb,
            },
        ),
{
}

/// The hardware line starts with the vendor and then the GPU's model (or
/// `Unbekanntes Modell` when it is unknown), each followed by ` — `.
pub proof fn lemma_hardware_line_names_model(gpu: GpuInfo, ram_gb: u32, vram_mb: Option<u32>)
    ensures
        ({
            let model = match gpu.model {
                Some(m) => m@,
                None => "Unbekanntes Modell"@,
            };
            let head = gpu.vendor@ + " — "@ + model + " — "@;
            event_text(BackendEvent::HardwareDetected { gpu, ram_gb, vram_mb }) matches Some(t)
                && head.len() <= t.len() && t.subrange(0, head.len() as int) == head
        }),
{
    reveal_strlit(" — ");
    reveal_strlit(" — System-RAM ca. ");
    let model = match gpu.model {
        Some(m) => m@,
        None => "Unbekanntes Modell"@,
    };
    let head = gpu.vendor@ + " — "@ + model + " — "@;
    let t = event_text(BackendEvent::HardwareDetected { gpu, ram_gb, vram_mb }).unwrap();
    assert(t.subrange(0, head.len() as int) =~= head);
}

} // verus!
