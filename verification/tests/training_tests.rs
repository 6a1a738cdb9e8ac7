//! Hyperparameters, trainer location, the single-job slot, and trainer runs.

use omniforge::error::OmniForgeError;
use omniforge::events::BackendEvent;
use omniforge::training::hyperparams::{normalize, quantization_from_hint};
use omniforge::training::monitor::{metric_event, TrainingMetricLine};
use omniforge::training::orchestrator::{RunAction, RunInput, RunPhase, TrainerRun, TrainingOrchestrator};
use omniforge::training::python_bridge::{
    ensure_train_script_present, resolve_python_executable, train_script_path,
};
use omniforge::hal::recommend_quant_for_vram;
use omniforge::types::{QuantizationMode, TrainingConfig};

fn config() -> TrainingConfig {
    TrainingConfig {
        job_id: "job-1".to_string(),
        model_name: "llama".to_string(),
        workspace: b"/ws".to_vec(),
        dataset_path: b"/ws/data.jsonl".to_vec(),
        learning_rate_bits: 2e-4f64.to_bits(),
        lora_rank: 0,
        lora_alpha: 0,
        epochs: 500,
        batch_size: 0,
        quantization: QuantizationMode::FourBit,
    }
}

#[test]
fn normalize_clamps() {
    let mut c = config();
    normalize(&mut c);
    assert_eq!((c.lora_rank, c.lora_alpha, c.epochs, c.batch_size), (4, 1, 100, 1));
    assert_eq!(c.job_id, "job-1");
    assert_eq!(f64::from_bits(c.learning_rate_bits), 2e-4);

    let mut c = config();
    c.lora_rank = 1000;
    c.lora_alpha = 32;
    c.epochs = 0;
    c.batch_size = 8;
    normalize(&mut c);
    assert_eq!((c.lora_rank, c.lora_alpha, c.epochs, c.batch_size), (128, 32, 1, 8));
}

#[test]
fn normalize_is_idempotent() {
    let mut once = config();
    normalize(&mut once);
    let mut twice = once.clone();
    normalize(&mut twice);
    assert_eq!(once, twice);
}

#[test]
fn hints_map_to_modes() {
    assert_eq!(quantization_from_hint("fp16"), QuantizationMode::Unquantized);
    assert_eq!(quantization_from_hint("8bit_or_fp16_lora"), QuantizationMode::EightBit);
    assert_eq!(quantization_from_hint("5bit_or_8bit_lora"), QuantizationMode::EightBit);
    assert_eq!(quantization_from_hint("4bit"), QuantizationMode::FourBit);
    assert_eq!(quantization_from_hint("FP16"), QuantizationMode::FourBit);
    assert_eq!(quantization_from_hint(""), QuantizationMode::FourBit);
}

#[test]
fn hal_hints_lead_to_modes_by_vram() {
    let mode = |v| quantization_from_hint(recommend_quant_for_vram(v));
    assert_eq!(mode(None), QuantizationMode::FourBit);
    assert_eq!(mode(Some(2048)), QuantizationMode::FourBit);
    assert_eq!(mode(Some(6000)), QuantizationMode::EightBit);
    assert_eq!(mode(Some(12000)), QuantizationMode::EightBit);
    assert_eq!(mode(Some(24000)), QuantizationMode::Unquantized);
}

#[test]
fn script_and_interpreter_locations() {
    assert_eq!(train_script_path(Some(b"/opt/of"), b"/src/crates/core"), b"/opt/of/python/train_lora.py".to_vec());
    assert_eq!(
        train_script_path(None, b"/src/crates/core"),
        b"/src/crates/core/../../python/train_lora.py".to_vec()
    );
    assert_eq!(resolve_python_executable(Some("/venv/bin/python")), b"/venv/bin/python".to_vec());
    assert_eq!(resolve_python_executable(None), b"python3".to_vec());
}

#[test]
fn missing_script_is_a_training_error() {
    assert_eq!(ensure_train_script_present(b"/s.py".to_vec(), true).unwrap(), b"/s.py".to_vec());
    match ensure_train_script_present(b"/x/train_lora.py".to_vec(), false) {
        Err(OmniForgeError::Training { message }) => {
            assert_eq!(message, "train_lora.py not found at /x/train_lora.py")
        }
        other => panic!("unexpected {other:?}"),
    }
}

#[test]
fn orchestrator_holds_one_job() {
    let mut o: TrainingOrchestrator<u32> = TrainingOrchestrator::new();
    let (previous, normalized, event) = o.begin_start(config());
    assert_eq!(previous, None);
    assert_eq!(normalized.epochs, 100);
    assert_eq!(
        event,
        BackendEvent::TrainingStarted { job_id: "job-1".to_string(), model_name: "llama".to_string() }
    );
    o.install(1);
    let (previous, _, _) = o.begin_start(config());
    assert_eq!(previous, Some(1));
    o.install(2);
    assert_eq!(o.stop(), Some(2));
    assert_eq!(o.stop(), None);
}

#[test]
fn metric_events() {
    let m = TrainingMetricLine { step: 3, epoch: 1, loss_bits: 0.5f64.to_bits(), lr_bits: 1e-4f64.to_bits() };
    assert_eq!(
        metric_event("j", m),
        BackendEvent::TrainingMetrics {
            job_id: "j".to_string(),
            epoch: 1,
            step: 3,
            loss_bits: 0.5f64.to_bits(),
            lr_bits: 1e-4f64.to_bits()
        }
    );
}

fn bytes(s: &str) -> Vec<u8> {
    s.as_bytes().to_vec()
}

#[test]
fn trainer_run_success() {
    let (mut run, a) = TrainerRun::begin(config());
    assert!(matches!(a, RunAction::LocateScript));
    let a = run.step(RunInput::ScriptLocated(Ok(bytes("/of/python/train_lora.py"))));
    assert!(matches!(a, RunAction::ResolveDirs));
    let a = run.step(RunInput::DirsResolved { python: bytes("python3"), data_dir: Ok(bytes("/home/u/.local/share/omniforge")) });
    match a {
        RunAction::CreateDir(d) => assert_eq!(d, bytes("/home/u/.local/share/omniforge/adapters/job-1")),
        other => panic!("unexpected {other:?}"),
    }
    match run.step(RunInput::DirCreated(Ok(()))) {
        RunAction::Spawn { program, args, cwd } => {
            assert_eq!(program, bytes("python3"));
            assert_eq!(cwd, bytes("/ws"));
            let expect: Vec<Vec<u8>> = [
                "/of/python/train_lora.py", "--job-id", "job-1", "--dataset", "/ws/data.jsonl",
                "--output", "/home/u/.local/share/omniforge/adapters/job-1",
            ]
            .iter()
            .map(|s| bytes(s))
            .collect();
            assert_eq!(args, expect);
        }
        other => panic!("unexpected {other:?}"),
    }
    assert!(matches!(run.step(RunInput::Spawned { has_stdout: true }), RunAction::ReadLine));
    assert!(matches!(run.step(RunInput::LineRead(None)), RunAction::ReadLine));
    let m = TrainingMetricLine { step: 1, epoch: 1, loss_bits: 2.0f64.to_bits(), lr_bits: 0 };
    match run.step(RunInput::LineRead(Some(m))) {
        RunAction::Send(BackendEvent::TrainingMetrics { job_id, step, .. }) => {
            assert_eq!(job_id, "job-1");
            assert_eq!(step, 1);
        }
        other => panic!("unexpected {other:?}"),
    }
    assert_eq!(run.phase(), RunPhase::AwaitMetricDelivery);
    assert!(matches!(run.step(RunInput::Delivered(true)), RunAction::ReadLine));
    assert!(matches!(run.step(RunInput::OutputEnded), RunAction::Wait));
    match run.step(RunInput::Exited { success: true, status: "exit status: 0".to_string() }) {
        RunAction::Send(BackendEvent::TrainingCompleted { job_id, adapter_path }) => {
            assert_eq!(job_id, "job-1");
            assert_eq!(adapter_path, bytes("/home/u/.local/share/omniforge/adapters/job-1"));
        }
        other => panic!("unexpected {other:?}"),
    }
    assert!(matches!(run.step(RunInput::Delivered(true)), RunAction::Done(Ok(()))));
    assert_eq!(run.phase(), RunPhase::Finished);
}

#[test]
fn trainer_run_failures() {
    let (mut run, _) = TrainerRun::begin(config());
    let missing = ensure_train_script_present(bytes("/nope.py"), false);
    assert!(matches!(run.step(RunInput::ScriptLocated(missing)), RunAction::Done(Err(OmniForgeError::Training { .. }))));

    let (mut run, _) = TrainerRun::begin(config());
    run.step(RunInput::ScriptLocated(Ok(bytes("/s.py"))));
    run.step(RunInput::DirsResolved { python: bytes("py"), data_dir: Ok(bytes("/d")) });
    let err = std::io::Error::new(std::io::ErrorKind::PermissionDenied, "denied");
    assert!(matches!(run.step(RunInput::DirCreated(Err(err))), RunAction::Done(Err(OmniForgeError::Io(_)))));

    let (mut run, _) = TrainerRun::begin(config());
    run.step(RunInput::ScriptLocated(Ok(bytes("/s.py"))));
    run.step(RunInput::DirsResolved { python: bytes("py"), data_dir: Ok(bytes("/d")) });
    run.step(RunInput::DirCreated(Ok(())));
    match run.step(RunInput::SpawnFailed("No such file or directory (os error 2)".to_string())) {
        RunAction::Done(Err(OmniForgeError::Training { message })) => {
            assert_eq!(message, "failed to spawn trainer: No such file or directory (os error 2)")
        }
        other => panic!("unexpected {other:?}"),
    }

    let (mut run, _) = TrainerRun::begin(config());
    run.step(RunInput::ScriptLocated(Ok(bytes("/s.py"))));
    run.step(RunInput::DirsResolved { python: bytes("py"), data_dir: Ok(bytes("/d")) });
    run.step(RunInput::DirCreated(Ok(())));
    run.step(RunInput::Spawned { has_stdout: true });
    run.step(RunInput::OutputEnded);
    match run.step(RunInput::Exited { success: false, status: "exit status: 3".to_string() }) {
        RunAction::Send(BackendEvent::TrainingFailed { job_id, error }) => {
            assert_eq!(job_id, "job-1");
            assert_eq!(error, "trainer exited with exit status: 3");
        }
        other => panic!("unexpected {other:?}"),
    }
    match run.step(RunInput::Delivered(false)) {
        RunAction::Done(Err(OmniForgeError::Training { message })) => {
            assert_eq!(message, "GUI event channel closed")
        }
        other => panic!("unexpected {other:?}"),
    }
}
