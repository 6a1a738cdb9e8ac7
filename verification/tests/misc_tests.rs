//! Errors, directories, and inference defaults.

use omniforge::data_pipeline::ingest::import_outcome;
use omniforge::error::{io_description, OmniForgeError};
use omniforge::inference::config::InferenceParams;
use omniforge::paths::{
    cache_dir, cache_dir_from, config_dir, config_dir_from, data_dir, data_dir_from,
    project_dirs_or_error, ProjectPaths,
};

#[test]
fn error_descriptions() {
    let cases = [
        (OmniForgeError::Config { message: "m".to_string() }, "configuration error: m"),
        (OmniForgeError::Model { message: "m".to_string() }, "model error: m"),
        (OmniForgeError::Training { message: "m".to_string() }, "training error: m"),
        (OmniForgeError::Rag { message: "m".to_string() }, "RAG error: m"),
        (OmniForgeError::Hardware { message: "m".to_string() }, "hardware error: m"),
    ];
    for (e, text) in cases {
        assert_eq!(e.describe(), text);
    }
    let io = OmniForgeError::Io(std::io::Error::new(std::io::ErrorKind::Other, "disk"));
    assert_eq!(io.describe(), "I/O error: disk");
    assert_eq!(io_description("No such file or directory (os error 2)"), "I/O error: No such file or directory (os error 2)");
    assert_eq!(io_description(""), "I/O error: ");
}

#[test]
fn directories_end_in_project_name() {
    for dir in [config_dir(), data_dir(), cache_dir()] {
        match dir {
            Ok(p) => assert!(p.ends_with(b"/omniforge"), "{p:?}"),
            Err(OmniForgeError::Config { message }) => {
                assert_eq!(message, "unable to resolve XDG project directories")
            }
            Err(other) => panic!("unexpected {other:?}"),
        }
    }
    match project_dirs_or_error(None) {
        Err(OmniForgeError::Config { message }) => {
            assert_eq!(message, "unable to resolve XDG project directories")
        }
        _ => panic!("expected a configuration error"),
    }
}

#[test]
fn directories_pick_their_own_base() {
    let found = || {
        Some(ProjectPaths {
            config: b"/home/u/.config/omniforge".to_vec(),
            data: b"/home/u/.local/share/omniforge".to_vec(),
            cache: b"/home/u/.cache/omniforge".to_vec(),
        })
    };
    assert_eq!(config_dir_from(found()).unwrap(), b"/home/u/.config/omniforge".to_vec());
    assert_eq!(data_dir_from(found()).unwrap(), b"/home/u/.local/share/omniforge".to_vec());
    assert_eq!(cache_dir_from(found()).unwrap(), b"/home/u/.cache/omniforge".to_vec());
    for r in [config_dir_from(None), data_dir_from(None), cache_dir_from(None)] {
        match r {
            Err(OmniForgeError::Config { message }) => {
                assert_eq!(message, "unable to resolve XDG project directories")
            }
            other => panic!("unexpected {other:?}"),
        }
    }
}

#[test]
fn inference_defaults() {
    let p = InferenceParams::default();
    assert_eq!(f32::from_bits(p.temperature_bits), 0.8);
    assert_eq!(f32::from_bits(p.top_p_bits), 0.95);
    assert_eq!(p.max_tokens, 512);
}

#[test]
fn import_outcome_passes_io_errors() {
    assert_eq!(import_outcome(Ok(false)).unwrap(), 1);
    let err = std::io::Error::new(std::io::ErrorKind::NotFound, "gone");
    assert!(matches!(import_outcome(Err(err)), Err(OmniForgeError::Io(_))));
}
