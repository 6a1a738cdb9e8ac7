# OmniForge core library

The verified core of OmniForge, a local AI creator studio (fine-tuning, RAG,
GGUF export). `src/` is the library, proved with Verus; `app/` is the GTK4 /
Libadwaita desktop shell and the Tokio runtime around it.

## Layout of `src/`

- `types`, `events`, `error`: domain types, GUI/core messages, the error type.
  Paths are OS path bytes; floating-point values are IEEE-754 bit patterns.
- `text`, `fspath`: Unicode whitespace, trimming, decimal numbers, and Unix
  `Path::join` / `Path::file_name` on path bytes.
- `hal`: quantization hints by VRAM, reading `nvidia-smi` output and
  `/proc/meminfo`, and combining probe results into a hardware profile.
- `training`: hyperparameter normalization, metric events, trainer location,
  the single-job slot and the step-by-step trainer run.
- `runtime`: the step-by-step handling of one GUI command.
- `paths`: XDG directories through the `directories` crate.
- `model_registry`: which entries of the models directory are GGUF files or
  Hugging Face checkpoints.
- `downloader`: Hub repository ids and the step-by-step download with offline
  reuse of a repository already present.
- `gui`: the meaning of the `config.toml` preferences file (parsed by the
  `toml` crate) and the shell's status line.
- `data_pipeline`, `inference`, `rag`: the remaining entry points.

The shell performs every side effect (processes, files, channels, GTK) and
feeds the outcomes back to the library's step functions.
