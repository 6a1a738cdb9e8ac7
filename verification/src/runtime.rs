//! Handling of one `GuiCommand` by the core: which hardware probe, training
//! call, import or event comes next, given what the previous one returned.
//!
//! The shell runs the loop: it performs each [`CommandAction`] (probing,
//! awaiting the orchestrator, sending on the event channel, importing a file)
//! and hands the outcome back as a [`CommandInput`].

use vstd::prelude::*;
use crate::error::{channel_closed_message, channel_closed_text, describes, OmniForgeError};
use crate::events::{BackendEvent, GuiCommand};
use crate::fspath::{copy_bytes, display_name, file_display_name};
use crate::hal::HardwareProfile;
use crate::types::TrainingConfig;

verus! {

/// Where the handling of one command stands.
#[derive(Debug, Clone, Copy, PartialEq, Eq, Structural)]
pub enum CommandPhase {
    /// Waiting for the hardware probe.
    AwaitHardware,
    /// Waiting for the hardware event to be delivered.
    AwaitHardwareDelivery,
    /// Waiting for the training orchestrator to start or stop a job.
    AwaitJob,
    /// Waiting for the "import started" event of file `index` to be delivered.
    AwaitStartDelivery { index: usize },
    /// Waiting for file `index` to be imported.
    AwaitImport { index: usize },
    /// Waiting for the import outcome of file `index` to be delivered.
    AwaitResultDelivery { index: usize },
    /// The command has been handled.
    Finished,
}

/// What the shell reports back after performing an action.
#[derive(Debug)]
pub enum CommandInput {
    /// The hardware probe finished.
    HardwareProbed(Result<HardwareProfile, OmniForgeError>),
    /// The orchestrator finished starting or stopping a job.
    JobOutcome(Result<(), OmniForgeError>),
    /// An event was sent: `true` when the GUI's channel accepted it.
    Delivered(bool),
    /// A file import finished, with its chunk count.
    Imported(Result<usize, OmniForgeError>),
}

/// What the shell must do next.
#[derive(Debug)]
pub enum CommandAction {
    /// Probe the hardware.
    ProbeHardware,
    /// Start a training job with this configuration.
    StartTraining(TrainingConfig),
    /// Stop the training job with this identifier.
    StopTraining(String),
    /// Send this event to the GUI.
    Send(BackendEvent),
    /// Import the file at this path (OS path bytes).
    Import(Vec<u8>),
    /// The command is not implemented yet: log it; handling ends successfully.
    NotImplemented(GuiCommand),
    /// Handling ended with this result.
    Done(Result<(), OmniForgeError>),
}

/// The handling of one command.
pub struct CommandHandler {
    phase: CommandPhase,
    paths: Vec<Vec<u8>>,
}

/// Whether `input` is what the shell reports in `phase`.
pub open spec fn accepts(phase: CommandPhase, input: CommandInput) -> bool {
    match phase {
        CommandPhase::AwaitHardware => input is HardwareProbed,
        CommandPhase::AwaitJob => input is JobOutcome,
        CommandPhase::AwaitImport { .. } => input is Imported,
        CommandPhase::AwaitHardwareDelivery => input is Delivered,
        CommandPhase::AwaitStartDelivery { .. } => input is Delivered,
        CommandPhase::AwaitResultDelivery { .. } => input is Delivered,
        CommandPhase::Finished => false,
    }
}

/// Whether `a` ends handling with an error whose kind is `Rag` and whose
/// message says that the GUI's channel is closed.
pub open spec fn rag_channel_closed(a: CommandAction) -> bool {
    a matches CommandAction::Done(Err(OmniForgeError::Rag { message })) && message@
        == channel_closed_text()
}

/// Whether `a` ends handling successfully.
pub open spec fn done_ok(a: CommandAction) -> bool {
    a matches CommandAction::Done(Ok(_))
}

/// Whether `a` ends handling with an error whose kind is `Hardware` and whose
/// message says that the GUI's channel is closed.
pub open spec fn hardware_channel_closed(a: CommandAction) -> bool {
    a matches CommandAction::Done(Err(OmniForgeError::Hardware { message })) && message@
        == channel_closed_text()
}

/// Whether `a` imports the file at `path`.
pub open spec fn imports(a: CommandAction, path: Seq<u8>) -> bool {
    a matches CommandAction::Import(p) && p@ == path
}

/// Whether `a` announces the import of the file at `path`.
pub open spec fn announces_import(a: CommandAction, path: Seq<u8>) -> bool {
    a matches CommandAction::Send(BackendEvent::FileImportStarted { filename }) && filename@
        == display_name(path)
}

impl CommandHandler {
    #[verifier::type_invariant]
    spec fn well_formed(self) -> bool {
        match self.phase {
            CommandPhase::AwaitStartDelivery { index } => index < self.paths.len(),
            CommandPhase::AwaitImport { index } => index < self.paths.len(),
            CommandPhase::AwaitResultDelivery { index } => index < self.paths.len(),
            _ => true,
        }
    }

    /// The current phase.
    pub closed spec fn spec_phase(self) -> CommandPhase {
        self.phase
    }

    /// The paths of an import command, as OS path bytes.
    pub closed spec fn spec_paths(self) -> Seq<Seq<u8>> {
        self.paths@.map_values(|p: Vec<u8>| p@)
    }

    /// The current phase.
    pub fn phase(&self) -> (r: CommandPhase)
        ensures
            r == self.spec_phase(),
    {
        self.phase
    }

    /// Starts handling `cmd`: hardware detection probes the hardware; start
    /// and stop go to the training orchestrator; an import announces its first
    /// file (or ends at once when there is none); any other command is not
    /// implemented.
    pub fn begin(cmd: GuiCommand) -> (r: (CommandHandler, CommandAction))
        ensures
            match cmd {
                GuiCommand::DetectHardware => r.0.spec_phase() == CommandPhase::AwaitHardware
                    && r.1 is ProbeHardware,
                GuiCommand::StartTraining { config } => r.0.spec_phase()
                    == CommandPhase::AwaitJob && r.1 == CommandAction::StartTraining(config),
                GuiCommand::StopTraining { job_id } => r.0.spec_phase() == CommandPhase::AwaitJob
                    && r.1 == CommandAction::StopTraining(job_id),
                GuiCommand::ImportFiles { paths } => r.0.spec_paths() == paths@.map_values(
                    |p: Vec<u8>| p@,
                ) && if paths.len() == 0 {
                    r.0.spec_phase() == CommandPhase::Finished && done_ok(r.1)
                } else {
                    r.0.spec_phase() == (CommandPhase::AwaitStartDelivery { index: 0 })
                        && announces_import(r.1, paths[0]@)
                },
                _ => r.0.spec_phase() == CommandPhase::Finished && r.1
                    == CommandAction::NotImplemented(cmd),
            },
    {
        match cmd {
            GuiCommand::DetectHardware => (
                CommandHandler { phase: CommandPhase::AwaitHardware, paths: Vec::new() },
                CommandAction::ProbeHardware,
            ),
            GuiCommand::StartTraining { config } => (
                CommandHandler { phase: CommandPhase::AwaitJob, paths: Vec::new() },
                CommandAction::StartTraining(config),
            ),
            GuiCommand::StopTraining { job_id } => (
                CommandHandler { phase: CommandPhase::AwaitJob, paths: Vec::new() },
                CommandAction::StopTraining(job_id),
            ),
            GuiCommand::ImportFiles { paths } => {
                if paths.len() == 0 {
                    (
                        CommandHandler { phase: CommandPhase::Finished, paths },
                        CommandAction::Done(Ok(())),
                    )
                } else {
                    let filename = file_display_name(paths[0].as_slice());
                    (
                        CommandHandler { phase: CommandPhase::AwaitStartDelivery { index: 0 }, paths },
                        CommandAction::Send(BackendEvent::FileImportStarted { filename }),
                    )
                }
            },
            other => (
                CommandHandler { phase: CommandPhase::Finished, paths: Vec::new() },
                CommandAction::NotImplemented(other),
            ),
        }
    }

    /// Advances on what the shell reports:
    /// - a hardware profile becomes a `HardwareDetected` event (a probe error
    ///   ends handling with it); once delivered, handling ends successfully;
    /// - the orchestrator's outcome ends handling with it;
    /// - a delivered "import started" event leads to importing that file; the
    ///   import's chunk count or error becomes a `FileImportCompleted` or
    ///   `FileImportFailed` event; once that is delivered the next file is
    ///   announced, or handling ends successfully after the last one;
    /// - an undelivered event ends handling with an error saying that the GUI
    ///   channel is closed (of kind `Hardware` for the hardware event, `Rag`
    ///   for import events).
    pub fn step(&mut self, input: CommandInput) -> (a: CommandAction)
        requires
            accepts(old(self).spec_phase(), input),
        ensures
            final(self).spec_paths() == old(self).spec_paths(),
            match (old(self).spec_phase(), input) {
                (CommandPhase::AwaitHardware, CommandInput::HardwareProbed(Ok(p))) => {
                    &&& final(self).spec_phase() == CommandPhase::AwaitHardwareDelivery
                    &&& a == CommandAction::Send(
                        BackendEvent::HardwareDetected {
                            gpu: p.gpu,
                            ram_gb: p.ram_gb,
                            vram_mb: p.gpu.vram_mb,
                        },
                    )
                },
                (CommandPhase::AwaitHardware, CommandInput::HardwareProbed(Err(e))) => {
                    &&& final(self).spec_phase() == CommandPhase::Finished
                    &&& a == CommandAction::Done(Err(e))
                },
                (CommandPhase::AwaitHardwareDelivery, CommandInput::Delivered(ok)) => {
                    &&& final(self).spec_phase() == CommandPhase::Finished
                    &&& ok ==> done_ok(a)
                    &&& !ok ==> hardware_channel_closed(a)
                },
                (CommandPhase::AwaitJob, CommandInput::JobOutcome(r)) => {
                    &&& final(self).spec_phase() == CommandPhase::Finished
                    &&& a == CommandAction::Done(r)
                },
                (CommandPhase::AwaitStartDelivery { index }, CommandInput::Delivered(ok)) => {
                    &&& ok ==> final(self).spec_phase() == (CommandPhase::AwaitImport { index })
                        && imports(a, old(self).spec_paths()[index as int])
                    &&& !ok ==> final(self).spec_phase() == CommandPhase::Finished
                        && rag_channel_closed(a)
                },
                (CommandPhase::AwaitImport { index }, CommandInput::Imported(Ok(n))) => {
                    &&& final(self).spec_phase() == (CommandPhase::AwaitResultDelivery { index })
                    &&& a matches CommandAction::Send(
                        BackendEvent::FileImportCompleted { filename, chunks },
                    )
                    &&& filename@ == display_name(old(self).spec_paths()[index as int])
                    &&& chunks == n
                },
                (CommandPhase::AwaitImport { index }, CommandInput::Imported(Err(e))) => {
                    &&& final(self).spec_phase() == (CommandPhase::AwaitResultDelivery { index })
                    &&& a matches CommandAction::Send(
                        BackendEvent::FileImportFailed { filename, error },
                    )
                    &&& filename@ == display_name(old(self).spec_paths()[index as int])
                    &&& describes(e, error@)
                },
                (CommandPhase::AwaitResultDelivery { index }, CommandInput::Delivered(ok)) => {
                    &&& !ok ==> final(self).spec_phase() == CommandPhase::Finished
                        && rag_channel_closed(a)
                    &&& ok && index + 1 < old(self).spec_paths().len() ==> final(self).spec_phase()
                        == (CommandPhase::AwaitStartDelivery { index: (index + 1) as usize })
                        && announces_import(a, old(self).spec_paths()[index + 1])
                    &&& ok && index + 1 >= old(self).spec_paths().len()
                        ==> final(self).spec_phase() == CommandPhase::Finished && done_ok(a)
                },
                _ => false,
            },
    {
        proof {
            use_type_invariant(&*self);
        }
        match (self.phase, input) {
            (CommandPhase::AwaitHardware, CommandInput::HardwareProbed(Ok(p))) => {
                self.phase = CommandPhase::AwaitHardwareDelivery;
                let vram_mb = p.gpu.vram_mb;
                CommandAction::Send(
                    BackendEvent::HardwareDetected { gpu: p.gpu, ram_gb: p.ram_gb, vram_mb },
                )
            },
            (CommandPhase::AwaitHardware, CommandInput::HardwareProbed(Err(e))) => {
                self.phase = CommandPhase::Finished;
                CommandAction::Done(Err(e))
            },
            (CommandPhase::AwaitHardwareDelivery, CommandInput::Delivered(ok)) => {
                self.phase = CommandPhase::Finished;
                if ok {
                    CommandAction::Done(Ok(()))
                } else {
                    CommandAction::Done(
                        Err(OmniForgeError::Hardware { message: channel_closed_message() }),
                    )
                }
            },
            (CommandPhase::AwaitJob, CommandInput::JobOutcome(r)) => {
                self.phase = CommandPhase::Finished;
                CommandAction::Done(r)
            },
            (CommandPhase::AwaitStartDelivery { index }, CommandInput::Delivered(ok)) => {
                if ok {
                    self.phase = CommandPhase::AwaitImport { index };
                    CommandAction::Import(copy_bytes(self.paths[index].as_slice()))
                } else {
                    self.phase = CommandPhase::Finished;
                    CommandAction::Done(Err(OmniForgeError::Rag { message: channel_closed_message() }))
                }
            },
            (CommandPhase::AwaitImport { index }, CommandInput::Imported(outcome)) => {
                let filename = file_display_name(self.paths[index].as_slice());
                self.phase = CommandPhase::AwaitResultDelivery { index };
                match outcome {
                    Ok(chunks) => CommandAction::Send(
                        BackendEvent::FileImportCompleted { filename, chunks },
                    ),
                    Err(e) => {
                        let error = e.describe();
                        CommandAction::Send(BackendEvent::FileImportFailed { filename, error })
                    },
                }
            },
            (CommandPhase::AwaitResultDelivery { index }, CommandInput::Delivered(ok)) => {
                if !ok {
                    self.phase = CommandPhase::Finished;
                    CommandAction::Done(Err(OmniForgeError::Rag { message: channel_closed_message() }))
                } else if index + 1 < self.paths.len() {
                    let next = index + 1;
                    let filename = file_display_name(self.paths[next].as_slice());
                    self.phase = CommandPhase::AwaitStartDelivery { index: next };
                    CommandAction::Send(BackendEvent::FileImportStarted { filename })
                } else {
                    self.phase = CommandPhase::Finished;
                    CommandAction::Done(Ok(()))
                }
            },
            _ => vstd::pervasive::unreached(),
        }
    }
}

} // verus!
