//! Local models, the GUI configuration file, and Hub downloads.

use omniforge::downloader::{download_model, is_valid_model_id, DownloadAction, DownloadInput, DownloadPhase};
use omniforge::error::OmniForgeError;
use omniforge::gui::config::{config_file, config_from_document, GuiConfig, TopLevelEntry};
use omniforge::model_registry::{list_local_models, models_dir, ModelEntry};
use omniforge::training::orchestrator::TrainingOrchestrator;

fn entry(name: &str, is_dir: bool, has_config: bool) -> ModelEntry {
    ModelEntry { name: name.as_bytes().to_vec(), is_dir, has_config }
}

fn paths(v: Vec<Vec<u8>>) -> Vec<String> {
    v.into_iter().map(|p| String::from_utf8(p).unwrap()).collect()
}

#[test]
fn models_dir_is_under_data_dir() {
    assert_eq!(models_dir(b"/d"), b"/d/models".to_vec());
    assert_eq!(models_dir(b"/d/"), b"/d/models".to_vec());
}

#[test]
fn lists_gguf_files_and_checkpoints() {
    let es = vec![
        entry("llama.gguf", false, false),
        entry("Meta-Llama-3-8B", true, true),
        entry("half-downloaded", true, false),
        entry("notes.txt", false, false),
        entry(".gguf", false, false),
        entry("a.gguf", true, false),
        entry("..", true, true),
        entry("x/y.gguf", false, false),
        entry("", false, false),
        entry("llama.gguf", false, false),
    ];
    let listed = list_local_models(b"/home/u/.local/share/omniforge", Ok(Some(es))).unwrap();
    assert_eq!(
        paths(listed),
        vec![
            "/home/u/.local/share/omniforge/models/llama.gguf".to_string(),
            "/home/u/.local/share/omniforge/models/Meta-Llama-3-8B".to_string(),
        ]
    );
}

#[test]
fn listed_models_lie_under_data_dir() {
    let es = vec![entry("b.gguf", false, false), entry("a", true, true)];
    let data = b"/data".to_vec();
    for p in list_local_models(&data, Ok(Some(es))).unwrap() {
        assert!(p.starts_with(&data) && p.len() > data.len());
    }
}

#[test]
fn no_models_directory_lists_nothing() {
    assert!(list_local_models(b"/d", Ok(None)).unwrap().is_empty());
    assert!(list_local_models(b"/d", Ok(Some(Vec::new()))).unwrap().is_empty());
}

#[test]
fn listing_error_is_io_error() {
    let err = std::io::Error::new(std::io::ErrorKind::PermissionDenied, "denied");
    match list_local_models(b"/d", Err(err)) {
        Err(OmniForgeError::Io(e)) => assert_eq!(e.kind(), std::io::ErrorKind::PermissionDenied),
        other => panic!("unexpected {other:?}"),
    }
}

#[test]
fn config_file_location() {
    assert_eq!(config_file(b"/home/u/.config/omniforge"), b"/home/u/.config/omniforge/config.toml".to_vec());
}

#[test]
fn absent_config_is_default() {
    assert_eq!(GuiConfig::load(None).unwrap(), GuiConfig::default());
}

#[test]
fn config_sets_last_workspace() {
    let text = "# OmniForge\n\nlast_workspace = \"/home/u/projekt\"  # zuletzt\n";
    let c = GuiConfig::load(Some(text.as_bytes())).unwrap();
    assert_eq!(c.last_workspace, Some(b"/home/u/projekt".to_vec()));
    let c = GuiConfig::load(Some(b"\tlast_workspace=\"/w\"\r\n")).unwrap();
    assert_eq!(c.last_workspace, Some(b"/w".to_vec()));
}

#[test]
fn config_accepts_any_toml_string() {
    let c = GuiConfig::load(Some(b"last_workspace='/'")).unwrap();
    assert_eq!(c.last_workspace, Some(b"/".to_vec()));
    let c = GuiConfig::load(Some(b"last_workspace = \"a\\tb\\u00e4\"\n")).unwrap();
    assert_eq!(c.last_workspace, Some("a\tb\u{e4}".as_bytes().to_vec()));
    let c = GuiConfig::load(Some(b"last_workspace = '''\n/x'''\n")).unwrap();
    assert_eq!(c.last_workspace, Some(b"/x".to_vec()));
    let text = "theme = \"dark\"\nlast_workspace = \"/ws\"\n\n[window]\nwidth = 1280\nlast_workspace = 3\n";
    let c = GuiConfig::load(Some(text.as_bytes())).unwrap();
    assert_eq!(c.last_workspace, Some(b"/ws".to_vec()));
}

#[test]
fn config_without_setting_is_default() {
    let c = GuiConfig::load(Some(b"# nothing yet\n\n")).unwrap();
    assert_eq!(c.last_workspace, None);
    assert_eq!(GuiConfig::load(Some(b"")).unwrap().last_workspace, None);
    let c = GuiConfig::load(Some(b"theme = \"dark\"\n[gui]\nlast_workspace = \"/nested\"\n")).unwrap();
    assert_eq!(c.last_workspace, None);
}

fn invalid(contents: &[u8]) {
    match GuiConfig::load(Some(contents)) {
        Err(OmniForgeError::Config { message }) => assert_eq!(message, "invalid configuration file"),
        other => panic!("unexpected {other:?} for {contents:?}"),
    }
}

#[test]
fn invalid_configs_are_config_errors() {
    invalid(b"last_workspace = \"/a\"\nlast_workspace = \"/b\"\n");
    invalid(b"last_workspace = /a\n");
    invalid(b"last_workspace = \"/a\" trailing\n");
    invalid(b"last_workspace = \"a\\qb\"\n");
    invalid(&[0x6c, 0xff, 0xfe]);
}

#[test]
fn non_string_workspace_is_config_error() {
    for text in ["last_workspace = 3", "last_workspace = true", "last_workspace = [\"/a\"]", "[last_workspace]\npath = \"/a\""] {
        match GuiConfig::load(Some(text.as_bytes())) {
            Err(OmniForgeError::Config { message }) => assert_eq!(message, "last_workspace must be a string"),
            other => panic!("unexpected {other:?} for {text}"),
        }
    }
}

#[test]
fn document_entries_decide_config() {
    let e = |k: &str, v: Option<&str>| TopLevelEntry { key: k.to_string(), string_value: v.map(str::to_string) };
    let doc = vec![e("theme", Some("dark")), e("last_workspace", Some("/w")), e("last_workspace", None)];
    assert_eq!(config_from_document(Some(doc)).unwrap().last_workspace, Some(b"/w".to_vec()));
    assert_eq!(config_from_document(Some(vec![e("theme", None)])).unwrap().last_workspace, None);
    match config_from_document(Some(vec![e("last_workspace", None)])) {
        Err(OmniForgeError::Config { message }) => assert_eq!(message, "last_workspace must be a string"),
        other => panic!("unexpected {other:?}"),
    }
    match config_from_document(None) {
        Err(OmniForgeError::Config { message }) => assert_eq!(message, "invalid configuration file"),
        other => panic!("unexpected {other:?}"),
    }
}

#[test]
fn valid_model_ids() {
    assert!(is_valid_model_id("meta-llama/Meta-Llama-3-8B-Instruct"));
    assert!(is_valid_model_id("gpt2"));
    assert!(is_valid_model_id("Qwen/Qwen2.5-0.5B"));
    for bad in ["", "a/b/c", "-a", "a-", "a--b", "a..b", "/a", "a/", "a b", "a/.b"] {
        assert!(!is_valid_model_id(bad), "{bad}");
    }
}

#[test]
fn invalid_model_id_fails_at_once() {
    let (d, a) = download_model("not a repo");
    assert_eq!(d.phase(), DownloadPhase::Finished);
    match a {
        DownloadAction::Done(Err(OmniForgeError::Model { message })) => {
            assert_eq!(message, "invalid model id: not a repo")
        }
        other => panic!("unexpected {other:?}"),
    }
}

#[test]
fn download_fetches_into_models_directory() {
    let (mut d, a) = download_model("meta-llama/Meta-Llama-3-8B-Instruct");
    assert!(matches!(a, DownloadAction::ResolveDataDir));
    assert_eq!(d.phase(), DownloadPhase::AwaitDataDir);
    let dest = b"/home/u/.local/share/omniforge/models/meta-llama--Meta-Llama-3-8B-Instruct".to_vec();
    match d.step(DownloadInput::DataDirResolved(Ok(b"/home/u/.local/share/omniforge".to_vec()))) {
        DownloadAction::CheckCache(dir) => assert_eq!(dir, dest),
        other => panic!("unexpected {other:?}"),
    }
    match d.step(DownloadInput::CacheChecked(false)) {
        DownloadAction::Fetch { repo_id, dest: into } => {
            assert_eq!(repo_id, "meta-llama/Meta-Llama-3-8B-Instruct");
            assert_eq!(into, dest);
        }
        other => panic!("unexpected {other:?}"),
    }
    assert_eq!(d.phase(), DownloadPhase::AwaitFetch);
    assert!(matches!(d.step(DownloadInput::Fetched(Ok(()))), DownloadAction::Done(Ok(()))));
    assert_eq!(d.phase(), DownloadPhase::Finished);
}

#[test]
fn cached_model_is_reused_offline() {
    let (mut d, _) = download_model("gpt2");
    match d.step(DownloadInput::DataDirResolved(Ok(b"/d".to_vec()))) {
        DownloadAction::CheckCache(dir) => assert_eq!(dir, b"/d/models/gpt2".to_vec()),
        other => panic!("unexpected {other:?}"),
    }
    assert!(matches!(d.step(DownloadInput::CacheChecked(true)), DownloadAction::Done(Ok(()))));
    assert_eq!(d.phase(), DownloadPhase::Finished);
}

#[test]
fn failed_fetch_is_model_error() {
    let (mut d, _) = download_model("gpt2");
    d.step(DownloadInput::DataDirResolved(Ok(b"/d".to_vec())));
    d.step(DownloadInput::CacheChecked(false));
    match d.step(DownloadInput::Fetched(Err("network unreachable".to_string()))) {
        DownloadAction::Done(Err(OmniForgeError::Model { message })) => {
            assert_eq!(message, "model download failed: network unreachable")
        }
        other => panic!("unexpected {other:?}"),
    }
}

#[test]
fn unknown_data_dir_ends_download() {
    let (mut d, _) = download_model("gpt2");
    let e = OmniForgeError::Config { message: "unable to resolve XDG project directories".to_string() };
    match d.step(DownloadInput::DataDirResolved(Err(e))) {
        DownloadAction::Done(Err(OmniForgeError::Config { message })) => {
            assert_eq!(message, "unable to resolve XDG project directories")
        }
        other => panic!("unexpected {other:?}"),
    }
    assert_eq!(d.phase(), DownloadPhase::Finished);
}

#[test]
fn undelivered_start_is_training_error() {
    let o: TrainingOrchestrator<u32> = TrainingOrchestrator::new();
    assert!(o.started_delivery(true).is_ok());
    match o.started_delivery(false) {
        Err(OmniForgeError::Training { message }) => assert_eq!(message, "GUI event channel closed"),
        other => panic!("unexpected {other:?}"),
    }
}

#[test]
fn downloaded_checkpoint_is_listed() {
    let (mut d, _) = download_model("meta-llama/Meta-Llama-3-8B-Instruct");
    let dest = match d.step(DownloadInput::DataDirResolved(Ok(b"/d".to_vec()))) {
        DownloadAction::CheckCache(dir) => dir,
        other => panic!("unexpected {other:?}"),
    };
    let es = vec![entry("meta-llama--Meta-Llama-3-8B-Instruct", true, true)];
    assert_eq!(list_local_models(b"/d", Ok(Some(es))).unwrap(), vec![dest]);
}
