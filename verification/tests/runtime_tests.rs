//! Handling of GUI commands by the core, and the shell's status line.

use omniforge::error::OmniForgeError;
use omniforge::events::{backend_event_tag, gui_command_tag, BackendEvent, GuiCommand};
use omniforge::gui::config::GuiConfig;
use omniforge::gui::status::{detecting_status, ready_status, status_for_event, unreachable_status};
use omniforge::hal::hardware_profile;
use omniforge::runtime::{CommandAction, CommandHandler, CommandInput, CommandPhase};
use omniforge::types::GpuInfo;

#[test]
fn detect_hardware_sends_profile() {
    let (mut h, a) = CommandHandler::begin(GuiCommand::DetectHardware);
    assert!(matches!(a, CommandAction::ProbeHardware));
    let gpu = GpuInfo {
        vendor: "NVIDIA".to_string(),
        model: Some("RTX".to_string()),
        vram_mb: Some(8192),
        driver_version: None,
    };
    let profile = hardware_profile(Some(32), Some(gpu.clone()), None);
    match h.step(CommandInput::HardwareProbed(Ok(profile))) {
        CommandAction::Send(BackendEvent::HardwareDetected { gpu: g, ram_gb, vram_mb }) => {
            assert_eq!(g, gpu);
            assert_eq!(ram_gb, 32);
            assert_eq!(vram_mb, Some(8192));
        }
        other => panic!("unexpected {other:?}"),
    }
    match h.step(CommandInput::Delivered(false)) {
        CommandAction::Done(Err(OmniForgeError::Hardware { message })) => {
            assert_eq!(message, "GUI event channel closed")
        }
        other => panic!("unexpected {other:?}"),
    }
    assert_eq!(h.phase(), CommandPhase::Finished);
}

#[test]
fn import_files_announces_and_reports_each() {
    let paths = vec![b"/data/a.txt".to_vec(), b"/data/b.pdf".to_vec()];
    let (mut h, a) = CommandHandler::begin(GuiCommand::ImportFiles { paths });
    assert!(matches!(a, CommandAction::Send(BackendEvent::FileImportStarted { ref filename }) if filename == "a.txt"));
    match h.step(CommandInput::Delivered(true)) {
        CommandAction::Import(p) => assert_eq!(p, b"/data/a.txt".to_vec()),
        other => panic!("unexpected {other:?}"),
    }
    match h.step(CommandInput::Imported(Ok(1))) {
        CommandAction::Send(BackendEvent::FileImportCompleted { filename, chunks }) => {
            assert_eq!(filename, "a.txt");
            assert_eq!(chunks, 1);
        }
        other => panic!("unexpected {other:?}"),
    }
    assert!(matches!(h.step(CommandInput::Delivered(true)),
        CommandAction::Send(BackendEvent::FileImportStarted { ref filename }) if filename == "b.pdf"));
    assert!(matches!(h.step(CommandInput::Delivered(true)), CommandAction::Import(_)));
    let err = OmniForgeError::Rag { message: "unsupported".to_string() };
    match h.step(CommandInput::Imported(Err(err))) {
        CommandAction::Send(BackendEvent::FileImportFailed { filename, error }) => {
            assert_eq!(filename, "b.pdf");
            assert_eq!(error, "RAG error: unsupported");
        }
        other => panic!("unexpected {other:?}"),
    }
    assert!(matches!(h.step(CommandInput::Delivered(true)), CommandAction::Done(Ok(()))));
}

#[test]
fn import_stops_when_channel_closes() {
    let (mut h, _) = CommandHandler::begin(GuiCommand::ImportFiles { paths: vec![b"/x".to_vec()] });
    match h.step(CommandInput::Delivered(false)) {
        CommandAction::Done(Err(OmniForgeError::Rag { message })) => {
            assert_eq!(message, "GUI event channel closed")
        }
        other => panic!("unexpected {other:?}"),
    }
    let (_, a) = CommandHandler::begin(GuiCommand::ImportFiles { paths: vec![] });
    assert!(matches!(a, CommandAction::Done(Ok(()))));
}

#[test]
fn training_commands_and_unhandled_ones() {
    let (mut h, a) = CommandHandler::begin(GuiCommand::StopTraining { job_id: "j".to_string() });
    assert!(matches!(a, CommandAction::StopTraining(ref j) if j == "j"));
    assert!(matches!(h.step(CommandInput::JobOutcome(Ok(()))), CommandAction::Done(Ok(()))));
    let cmd = GuiCommand::DownloadModel { model_id: "m".to_string() };
    let (h, a) = CommandHandler::begin(cmd.clone());
    assert!(matches!(a, CommandAction::NotImplemented(ref c) if *c == cmd));
    assert_eq!(h.phase(), CommandPhase::Finished);
}

#[test]
fn status_lines() {
    assert_eq!(ready_status(), "Bereit — verbunden mit lokalem OmniForge-Core.");
    assert_eq!(detecting_status(), "Hardware wird ermittelt …");
    assert_eq!(unreachable_status("channel closed"), "Backend nicht erreichbar: channel closed");
    let ev = BackendEvent::HardwareDetected {
        gpu: GpuInfo { vendor: "AMD".to_string(), model: None, vram_mb: None, driver_version: None },
        ram_gb: 64,
        vram_mb: None,
    };
    assert_eq!(
        status_for_event(&ev).unwrap(),
        "AMD — Unbekanntes Modell — System-RAM ca. 64 GB — VRAM unbekannt"
    );
    let ev = BackendEvent::HardwareDetected {
        gpu: GpuInfo { vendor: "NVIDIA".to_string(), model: Some("RTX".to_string()), vram_mb: Some(8192), driver_version: None },
        ram_gb: 16,
        vram_mb: Some(8192),
    };
    assert_eq!(status_for_event(&ev).unwrap(), "NVIDIA — RTX — System-RAM ca. 16 GB — 8192 MiB VRAM");
    let ev = BackendEvent::TrainingCompleted { job_id: "j".to_string(), adapter_path: b"/a/j".to_vec() };
    assert_eq!(status_for_event(&ev).unwrap(), "Training j abgeschlossen — Adapter: /a/j");
    let ev = BackendEvent::TrainingFailed { job_id: "j".to_string(), error: "boom".to_string() };
    assert_eq!(status_for_event(&ev).unwrap(), "Training j fehlgeschlagen: boom");
    let ev = BackendEvent::FileImportStarted { filename: "f".to_string() };
    assert_eq!(status_for_event(&ev).unwrap(), "Import startet: f");
    let ev = BackendEvent::FileImportCompleted { filename: "f".to_string(), chunks: 12 };
    assert_eq!(status_for_event(&ev).unwrap(), "Import fertig: f (12 Chunks)");
    let ev = BackendEvent::FileImportFailed { filename: "f".to_string(), error: "e".to_string() };
    assert_eq!(status_for_event(&ev).unwrap(), "Import fehlgeschlagen (f): e");
    let ev = BackendEvent::RagIndexingProgress { documents_processed: 1, total: 2 };
    assert_eq!(status_for_event(&ev), None);
}

#[test]
fn gui_config_loads_default() {
    assert_eq!(GuiConfig::load(None).unwrap(), GuiConfig { last_workspace: None });
}

#[test]
fn event_and_command_tags() {
    assert_eq!(gui_command_tag(&GuiCommand::DetectHardware), "DetectHardware");
    assert_eq!(gui_command_tag(&GuiCommand::DownloadModel { model_id: "gpt2".to_string() }), "DownloadModel");
    let ev = BackendEvent::TrainingFailed { job_id: "j".to_string(), error: "e".to_string() };
    assert_eq!(backend_event_tag(&ev), "TrainingFailed");
    let ev = BackendEvent::RagIndexingProgress { documents_processed: 1, total: 2 };
    assert_eq!(backend_event_tag(&ev), "RagIndexingProgress");
}
