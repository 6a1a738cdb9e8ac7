//! Coordinates long-running training jobs: the single-job slot, and the run of
//! one trainer from locating its script to reporting how it ended.
//!
//! The shell performs the work (spawning, awaiting, reading the trainer's
//! output, sending events) and reports back; the decisions are made here.

use vstd::prelude::*;
use crate::error::{channel_closed_message, channel_closed_text, OmniForgeError};
use crate::events::BackendEvent;
use crate::fspath::{copy_bytes, join, joined};
use crate::training::hyperparams::{normalize, normalized};
use crate::training::monitor::{metric_event, TrainingMetricLine};
use crate::types::TrainingConfig;
use vstd::string::StringExecFns;
use vstd::string::StrSliceExecFns;
use vstd::utf8::encode_utf8;

verus! {

/// Owns at most one training task; starting a new job hands back any previous
/// task so that it can be aborted.
pub struct TrainingOrchestrator<H> {
    handle: Option<H>,
}

impl<H> TrainingOrchestrator<H> {
    /// The running task, if any.
    pub closed spec fn running(self) -> Option<H> {
        self.handle
    }

    /// The orchestrator after its task, if any, has been handed back.
    pub closed spec fn stopped(self) -> Self {
        TrainingOrchestrator { handle: None }
    }

    /// An orchestrator with no task.
    pub fn new() -> (r: Self)
        ensures
            r.running() is None,
    {
        TrainingOrchestrator { handle: None }
    }

    /// First half of starting a job: hands back the previous task (to be
    /// aborted and awaited), normalizes the configuration, and builds the
    /// `TrainingStarted` event to send before the job is spawned.
    pub fn begin_start(&mut self, config: TrainingConfig) -> (r: (
        Option<H>,
        TrainingConfig,
        BackendEvent,
    ))
        ensures
            r.0 == old(self).running(),
            final(self).running() is None,
            r.1 == normalized(config),
            r.2 == (BackendEvent::TrainingStarted {
                job_id: config.job_id,
                model_name: config.model_name,
            }),
    {
        let previous = self.handle.take();
        let mut config = config;
        normalize(&mut config);
        let event = BackendEvent::TrainingStarted {
            job_id: config.job_id.clone(),
            model_name: config.model_name.clone(),
        };
        (previous, config, event)
    }

    /// Between the halves of starting a job: once the `TrainingStarted` event
    /// has been sent, the job is spawned only if the GUI received it;
    /// otherwise starting fails with a training error saying that the GUI
    /// channel is closed, and no job is recorded.
    pub fn started_delivery(&self, delivered: bool) -> (r: Result<(), OmniForgeError>)
        ensures
            delivered ==> r is Ok,
            !delivered ==> (r matches Err(OmniForgeError::Training { message }) && message@
                == channel_closed_text()),
    {
        if delivered {
            Ok(())
        } else {
            Err(OmniForgeError::Training { message: channel_closed_message() })
        }
    }

    /// Second half of starting a job: records the spawned task.
    pub fn install(&mut self, handle: H)
        ensures
            final(self).running() == Some(handle),
    {
        self.handle = Some(handle);
    }

    /// Hands back the running task, if any, to be aborted (idempotent).
    pub fn stop(&mut self) -> (r: Option<H>)
        ensures
            r == old(self).running(),
            *final(self) == old(self).stopped(),
            final(self).running() is None,
    {
        self.handle.take()
    }

    /// Stopping twice is stopping once: the second stop finds no task and
    /// changes nothing.
    pub proof fn lemma_stop_idempotent(self)
        ensures
            self.stopped().stopped() == self.stopped(),
            self.stopped().running() is None,
    {
    }
}

impl<H> Default for TrainingOrchestrator<H> {
    fn default() -> (r: Self)
        ensures
            r.running() is None,
    {
        TrainingOrchestrator::new()
    }
}


/// Where one trainer run stands.
#[derive(Debug, Clone, Copy, PartialEq, Eq, Structural)]
pub enum RunPhase {
    /// Waiting for the training script to be located.
    AwaitScript,
    /// Waiting for the interpreter and the data directory.
    AwaitDirs,
    /// Waiting for the adapter directory to be created.
    AwaitDirCreated,
    /// Waiting for the trainer process to be spawned.
    AwaitSpawn,
    /// Reading the trainer's standard output line by line.
    Reading,
    /// Waiting for a metric event to be delivered.
    AwaitMetricDelivery,
    /// Waiting for the trainer process to exit.
    AwaitExit,
    /// Waiting for the completion or failure event to be delivered.
    AwaitFinalDelivery,
    /// The run is over.
    Finished,
}

/// What the shell reports back during a trainer run.
#[derive(Debug)]
pub enum RunInput {
    /// The training script's path, or why it is missing.
    ScriptLocated(Result<Vec<u8>, OmniForgeError>),
    /// The interpreter to run (OS path bytes) and the data directory.
    DirsResolved { python: Vec<u8>, data_dir: Result<Vec<u8>, OmniForgeError> },
    /// The adapter directory was created, or why not.
    DirCreated(Result<(), std::io::Error>),
    /// The trainer could not be spawned; the error's text.
    SpawnFailed(String),
    /// The trainer was spawned; whether its standard output could be taken.
    Spawned { has_stdout: bool },
    /// A line was read from the trainer; the metric record it holds, if any.
    LineRead(Option<TrainingMetricLine>),
    /// The trainer's output ended (or could no longer be read).
    OutputEnded,
    /// An event was sent: `true` when the GUI's channel accepted it.
    Delivered(bool),
    /// Waiting for the trainer failed; the error's text.
    WaitFailed(String),
    /// The trainer exited: whether successfully, and its exit status as text.
    Exited { success: bool, status: String },
}

/// What the shell must do next during a trainer run.
#[derive(Debug)]
pub enum RunAction {
    /// Check that the training script is present.
    LocateScript,
    /// Resolve the interpreter and the data directory.
    ResolveDirs,
    /// Create this directory and its parents.
    CreateDir(Vec<u8>),
    /// Spawn `program` with `args` in `cwd`, standard output and error piped,
    /// killed when dropped.
    Spawn { program: Vec<u8>, args: Vec<Vec<u8>>, cwd: Vec<u8> },
    /// Read the next line of the trainer's standard output.
    ReadLine,
    /// Send this event to the GUI.
    Send(BackendEvent),
    /// Wait for the trainer to exit.
    Wait,
    /// The run ended with this result.
    Done(Result<(), OmniForgeError>),
}

/// The directory where job `job_id` writes its adapter:
/// `<data_dir>/adapters/<job_id>`.
pub open spec fn adapter_location(data_dir: Seq<u8>, job_id: Seq<char>) -> Seq<u8> {
    joined(joined(data_dir, encode_utf8("adapters"@)), encode_utf8(job_id))
}

/// The trainer's command-line arguments.
pub open spec fn trainer_args(
    script: Seq<u8>,
    job_id: Seq<char>,
    dataset: Seq<u8>,
    adapter_dir: Seq<u8>,
) -> Seq<Seq<u8>> {
    seq![
        script,
        encode_utf8("--job-id"@),
        encode_utf8(job_id),
        encode_utf8("--dataset"@),
        dataset,
        encode_utf8("--output"@),
        adapter_dir,
    ]
}

/// Whether `a` ends the run with a training error whose message is `text`.
pub open spec fn fails_with(a: RunAction, text: Seq<char>) -> bool {
    a matches RunAction::Done(Err(OmniForgeError::Training { message })) && message@ == text
}

/// Whether `a` ends the run successfully.
pub open spec fn run_done_ok(a: RunAction) -> bool {
    a matches RunAction::Done(Ok(_))
}

/// Whether `a` is the spawn of `program` with `args` in `cwd`.
pub open spec fn spawns(a: RunAction, program: Seq<u8>, args: Seq<Seq<u8>>, cwd: Seq<u8>) -> bool {
    a matches RunAction::Spawn { program: p, args: xs, cwd: c } && p@ == program && xs@.map_values(
        |x: Vec<u8>| x@,
    ) == args && c@ == cwd
}

/// Whether `a` creates the directory `dir`.
pub open spec fn creates(a: RunAction, dir: Seq<u8>) -> bool {
    a matches RunAction::CreateDir(d) && d@ == dir
}

/// Whether `a` forwards `metric` of job `job_id`.
pub open spec fn forwards_metric(a: RunAction, job_id: Seq<char>, metric: TrainingMetricLine) -> bool {
    a matches RunAction::Send(BackendEvent::TrainingMetrics { job_id: j, epoch, step, loss_bits, lr_bits })
        && j@ == job_id && epoch == metric.epoch && step == metric.step && loss_bits
        == metric.loss_bits && lr_bits == metric.lr_bits
}

/// Whether `a` reports that job `job_id` completed with its adapter in `dir`.
pub open spec fn reports_completed(a: RunAction, job_id: Seq<char>, dir: Seq<u8>) -> bool {
    a matches RunAction::Send(BackendEvent::TrainingCompleted { job_id: j, adapter_path })
        && j@ == job_id && adapter_path@ == dir
}

/// Whether `a` reports that job `job_id` failed with the reason `text`.
pub open spec fn reports_failed(a: RunAction, job_id: Seq<char>, text: Seq<char>) -> bool {
    a matches RunAction::Send(BackendEvent::TrainingFailed { job_id: j, error })
        && j@ == job_id && error@ == text
}

/// Whether `input` is what the shell reports in `phase`.
pub open spec fn run_accepts(phase: RunPhase, input: RunInput) -> bool {
    match phase {
        RunPhase::AwaitScript => input is ScriptLocated,
        RunPhase::AwaitDirs => input is DirsResolved,
        RunPhase::AwaitDirCreated => input is DirCreated,
        RunPhase::AwaitSpawn => input is SpawnFailed || input is Spawned,
        RunPhase::Reading => input is LineRead || input is OutputEnded,
        RunPhase::AwaitMetricDelivery => input is Delivered,
        RunPhase::AwaitExit => input is WaitFailed || input is Exited,
        RunPhase::AwaitFinalDelivery => input is Delivered,
        RunPhase::Finished => false,
    }
}

/// One run of the Python trainer for a training configuration.
pub struct TrainerRun {
    phase: RunPhase,
    config: TrainingConfig,
    script: Vec<u8>,
    python: Vec<u8>,
    adapter_dir: Vec<u8>,
}

/// `prefix` followed by `detail`.
fn prefixed(prefix: &str, detail: &str) -> (r: String)
    ensures
        r@ == prefix@ + detail@,
{
    let mut r = String::from_str(prefix);
    r.append(detail);
    r
}

impl TrainerRun {
    /// The current phase.
    pub closed spec fn spec_phase(self) -> RunPhase {
        self.phase
    }

    /// The configuration of the job being run.
    pub closed spec fn spec_config(self) -> TrainingConfig {
        self.config
    }

    /// The located training script.
    pub closed spec fn spec_script(self) -> Seq<u8> {
        self.script@
    }

    /// The interpreter that runs the script.
    pub closed spec fn spec_python(self) -> Seq<u8> {
        self.python@
    }

    /// The adapter directory of the job.
    pub closed spec fn spec_adapter_dir(self) -> Seq<u8> {
        self.adapter_dir@
    }

    /// The current phase.
    pub fn phase(&self) -> (r: RunPhase)
        ensures
            r == self.spec_phase(),
    {
        self.phase
    }

    /// Starts a run of the trainer for `config`: the script is located first.
    pub fn begin(config: TrainingConfig) -> (r: (TrainerRun, RunAction))
        ensures
            r.0.spec_phase() == RunPhase::AwaitScript,
            r.0.spec_config() == config,
            r.1 is LocateScript,
    {
        (
            TrainerRun {
                phase: RunPhase::AwaitScript,
                config,
                script: Vec::new(),
                python: Vec::new(),
                adapter_dir: Vec::new(),
            },
            RunAction::LocateScript,
        )
    }

    /// Advances the run on what the shell reports, as the trainer is driven:
    /// locate the script, resolve the interpreter and the data directory,
    /// create `<data_dir>/adapters/<job_id>`, spawn the interpreter on the
    /// script with the job's arguments in its workspace, forward every metric
    /// line, wait for the exit, and report completion (with the adapter
    /// directory) or failure (with the exit status). Any error ends the run
    /// with it; an undelivered event ends it with a training error saying
    /// that the GUI channel is closed.
    pub fn step(&mut self, input: RunInput) -> (a: RunAction)
        requires
            run_accepts(old(self).spec_phase(), input),
        ensures
            final(self).spec_config() == old(self).spec_config(),
            old(self).spec_phase() != RunPhase::AwaitScript ==> final(self).spec_script() == old(
                self,
            ).spec_script(),
            old(self).spec_phase() != RunPhase::AwaitDirs ==> final(self).spec_python() == old(
                self,
            ).spec_python() && final(self).spec_adapter_dir() == old(self).spec_adapter_dir(),
            ({
                let job = old(self).spec_config().job_id@;
                match (old(self).spec_phase(), input) {
                    (RunPhase::AwaitScript, RunInput::ScriptLocated(Err(e))) => {
                        &&& final(self).spec_phase() == RunPhase::Finished
                        &&& a == RunAction::Done(Err(e))
                    },
                    (RunPhase::AwaitScript, RunInput::ScriptLocated(Ok(script))) => {
                        &&& final(self).spec_phase() == RunPhase::AwaitDirs
                        &&& final(self).spec_script() == script@
                        &&& a is ResolveDirs
                    },
                    (RunPhase::AwaitDirs, RunInput::DirsResolved { python, data_dir: Err(e) }) => {
                        &&& final(self).spec_phase() == RunPhase::Finished
                        &&& a == RunAction::Done(Err(e))
                    },
                    (RunPhase::AwaitDirs, RunInput::DirsResolved { python, data_dir: Ok(d) }) => {
                        &&& final(self).spec_phase() == RunPhase::AwaitDirCreated
                        &&& final(self).spec_python() == python@
                        &&& final(self).spec_adapter_dir() == adapter_location(d@, job)
                        &&& creates(a, adapter_location(d@, job))
                    },
                    (RunPhase::AwaitDirCreated, RunInput::DirCreated(Err(e))) => {
                        &&& final(self).spec_phase() == RunPhase::Finished
                        &&& a == RunAction::Done(Err(OmniForgeError::Io(e)))
                    },
                    (RunPhase::AwaitDirCreated, RunInput::DirCreated(Ok(_))) => {
                        &&& final(self).spec_phase() == RunPhase::AwaitSpawn
                        &&& spawns(
                            a,
                            old(self).spec_python(),
                            trainer_args(
                                old(self).spec_script(),
                                job,
                                old(self).spec_config().dataset_path@,
                                old(self).spec_adapter_dir(),
                            ),
                            old(self).spec_config().workspace@,
                        )
                    },
                    (RunPhase::AwaitSpawn, RunInput::SpawnFailed(text)) => {
                        &&& final(self).spec_phase() == RunPhase::Finished
                        &&& fails_with(a, "failed to spawn trainer: "@ + text@)
                    },
                    (RunPhase::AwaitSpawn, RunInput::Spawned { has_stdout }) => {
                        &&& !has_stdout ==> final(self).spec_phase() == RunPhase::Finished
                            && fails_with(a, "missing stdout pipe"@)
                        &&& has_stdout ==> final(self).spec_phase() == RunPhase::Reading
                            && a is ReadLine
                    },
                    (RunPhase::Reading, RunInput::LineRead(Some(m))) => {
                        &&& final(self).spec_phase() == RunPhase::AwaitMetricDelivery
                        &&& forwards_metric(a, job, m)
                    },
                    (RunPhase::Reading, RunInput::LineRead(None)) => {
                        &&& final(self).spec_phase() == RunPhase::Reading
                        &&& a is ReadLine
                    },
                    (RunPhase::Reading, RunInput::OutputEnded) => {
                        &&& final(self).spec_phase() == RunPhase::AwaitExit
                        &&& a is Wait
                    },
                    (RunPhase::AwaitMetricDelivery, RunInput::Delivered(ok)) => {
                        &&& ok ==> final(self).spec_phase() == RunPhase::Reading && a is ReadLine
                        &&& !ok ==> final(self).spec_phase() == RunPhase::Finished
                            && fails_with(a, channel_closed_text())
                    },
                    (RunPhase::AwaitExit, RunInput::WaitFailed(text)) => {
                        &&& final(self).spec_phase() == RunPhase::Finished
                        &&& fails_with(a, "failed to wait for trainer: "@ + text@)
                    },
                    (RunPhase::AwaitExit, RunInput::Exited { success, status }) => {
                        &&& final(self).spec_phase() == RunPhase::AwaitFinalDelivery
                        &&& success ==> reports_completed(a, job, old(self).spec_adapter_dir())
                        &&& !success ==> reports_failed(
                            a,
                            job,
                            "trainer exited with "@ + status@,
                        )
                    },
                    (RunPhase::AwaitFinalDelivery, RunInput::Delivered(ok)) => {
                        &&& final(self).spec_phase() == RunPhase::Finished
                        &&& ok ==> run_done_ok(a)
                        &&& !ok ==> fails_with(a, channel_closed_text())
                    },
                    _ => false,
                }
            }),
    {
        match (self.phase, input) {
            (RunPhase::AwaitScript, RunInput::ScriptLocated(located)) => match located {
                Err(e) => {
                    self.phase = RunPhase::Finished;
                    RunAction::Done(Err(e))
                },
                Ok(script) => {
                    self.script = script;
                    self.phase = RunPhase::AwaitDirs;
                    RunAction::ResolveDirs
                },
            },
            (RunPhase::AwaitDirs, RunInput::DirsResolved { python, data_dir }) => match data_dir {
                Err(e) => {
                    self.phase = RunPhase::Finished;
                    RunAction::Done(Err(e))
                },
                Ok(d) => {
                    let base = join(d.as_slice(), "adapters".as_bytes());
                    let dir = join(base.as_slice(), self.config.job_id.as_str().as_bytes());
                    let created = copy_bytes(dir.as_slice());
                    self.python = python;
                    self.adapter_dir = dir;
                    self.phase = RunPhase::AwaitDirCreated;
                    RunAction::CreateDir(created)
                },
            },
            (RunPhase::AwaitDirCreated, RunInput::DirCreated(created)) => match created {
                Err(e) => {
                    self.phase = RunPhase::Finished;
                    RunAction::Done(Err(OmniForgeError::Io(e)))
                },
                Ok(()) => {
                    let mut args: Vec<Vec<u8>> = Vec::new();
                    args.push(copy_bytes(self.script.as_slice()));
                    args.push("--job-id".as_bytes_vec());
                    args.push(self.config.job_id.as_str().as_bytes_vec());
                    args.push("--dataset".as_bytes_vec());
                    args.push(copy_bytes(self.config.dataset_path.as_slice()));
                    args.push("--output".as_bytes_vec());
                    args.push(copy_bytes(self.adapter_dir.as_slice()));
                    assert(args@.map_values(|x: Vec<u8>| x@) =~= trainer_args(
                        self.script@,
                        self.config.job_id@,
                        self.config.dataset_path@,
                        self.adapter_dir@,
                    ));
                    let program = copy_bytes(self.python.as_slice());
                    let cwd = copy_bytes(self.config.workspace.as_slice());
                    self.phase = RunPhase::AwaitSpawn;
                    RunAction::Spawn { program, args, cwd }
                },
            },
            (RunPhase::AwaitSpawn, RunInput::SpawnFailed(text)) => {
                self.phase = RunPhase::Finished;
                RunAction::Done(
                    Err(
                        OmniForgeError::Training {
                            message: prefixed("failed to spawn trainer: ", text.as_str()),
                        },
                    ),
                )
            },
            (RunPhase::AwaitSpawn, RunInput::Spawned { has_stdout }) => {
                if has_stdout {
                    self.phase = RunPhase::Reading;
                    RunAction::ReadLine
                } else {
                    self.phase = RunPhase::Finished;
                    RunAction::Done(
                        Err(OmniForgeError::Training { message: String::from_str("missing stdout pipe") }),
                    )
                }
            },
            (RunPhase::Reading, RunInput::LineRead(line)) => match line {
                Some(m) => {
                    self.phase = RunPhase::AwaitMetricDelivery;
                    RunAction::Send(metric_event(self.config.job_id.as_str(), m))
                },
                None => RunAction::ReadLine,
            },
            (RunPhase::Reading, RunInput::OutputEnded) => {
                self.phase = RunPhase::AwaitExit;
                RunAction::Wait
            },
            (RunPhase::AwaitMetricDelivery, RunInput::Delivered(ok)) => {
                if ok {
                    self.phase = RunPhase::Reading;
                    RunAction::ReadLine
                } else {
                    self.phase = RunPhase::Finished;
                    RunAction::Done(Err(OmniForgeError::Training { message: channel_closed_message() }))
                }
            },
            (RunPhase::AwaitExit, RunInput::WaitFailed(text)) => {
                self.phase = RunPhase::Finished;
                RunAction::Done(
                    Err(
                        OmniForgeError::Training {
                            message: prefixed("failed to wait for trainer: ", text.as_str()),
                        },
                    ),
                )
            },
            (RunPhase::AwaitExit, RunInput::Exited { success, status }) => {
                self.phase = RunPhase::AwaitFinalDelivery;
                let job_id = self.config.job_id.clone();
                if success {
                    RunAction::Send(
                        BackendEvent::TrainingCompleted {
                            job_id,
                            adapter_path: copy_bytes(self.adapter_dir.as_slice()),
                        },
                    )
                } else {
                    RunAction::Send(
                        BackendEvent::TrainingFailed {
                            job_id,
                            error: prefixed("trainer exited with ", status.as_str()),
                        },
                    )
                }
            },
            (RunPhase::AwaitFinalDelivery, RunInput::Delivered(ok)) => {
                self.phase = RunPhase::Finished;
                if ok {
                    RunAction::Done(Ok(()))
                } else {
                    RunAction::Done(Err(OmniForgeError::Training { message: channel_closed_message() }))
                }
            },
            _ => vstd::pervasive::unreached(),
        }
    }
}

} // verus!
