//! Where the Python trainer lives and which interpreter runs it.
//!
//! Reading the environment and the filesystem happens at the shell's edge; the
//! values read come here.

use vstd::prelude::*;
use crate::error::OmniForgeError;
use crate::fspath::{join, joined};
use crate::text::{lossy_text, lossy_utf8};
use vstd::string::StringExecFns;
use vstd::string::StringSliceAdditionalSpecFns;
use vstd::utf8::encode_utf8;

verus! {

/// `p.join(a).join(b)` with `a` and `b` given as text.
pub open spec fn joined_names(p: Seq<u8>, a: Seq<char>, b: Seq<char>) -> Seq<u8> {
    joined(joined(p, encode_utf8(a)), encode_utf8(b))
}

/// The training entrypoint: `<root>/python/train_lora.py` when the
/// `OMNIFORGE_ROOT` variable holds `root`, else
/// `<manifest_dir>/../../python/train_lora.py`.
pub open spec fn script_location(root: Option<Seq<u8>>, manifest_dir: Seq<u8>) -> Seq<u8> {
    match root {
        Some(r) => joined_names(r, "python"@, "train_lora.py"@),
        None => joined_names(
            joined(manifest_dir, encode_utf8("../.."@)),
            "python"@,
            "train_lora.py"@,
        ),
    }
}

/// Locates the bundled training script next to the development tree or
/// install prefix, from the value of `OMNIFORGE_ROOT` (if set) and the
/// directory of the crate's manifest.
pub fn train_script_path(root: Option<&[u8]>, manifest_dir: &[u8]) -> (r: Vec<u8>)
    ensures
        r@ == script_location(
            match root {
                Some(x) => Some(x@),
                None => None,
            },
            manifest_dir@,
        ),
{
    let base = match root {
        Some(r) => join(r, "python".as_bytes()),
        None => {
            let up = join(manifest_dir, "../..".as_bytes());
            join(up.as_slice(), "python".as_bytes())
        },
    };
    join(base.as_slice(), "train_lora.py".as_bytes())
}

/// The interpreter: the value of `OMNIFORGE_PYTHON` when it is set (and is
/// Unicode), else `python3`.
pub open spec fn python_location(env_value: Option<Seq<char>>) -> Seq<u8> {
    match env_value {
        Some(p) => encode_utf8(p),
        None => encode_utf8("python3"@),
    }
}

/// Resolves the interpreter inside the embedded venv when packaged, else falls
/// back to `python3`.
pub fn resolve_python_executable(env_value: Option<&str>) -> (r: Vec<u8>)
    ensures
        r@ == python_location(
            match env_value {
                Some(x) => Some(x@),
                None => None,
            },
        ),
{
    let s: &str = match env_value {
        Some(p) => p,
        None => "python3",
    };
    s.as_bytes_vec()
}

/// The message of the error raised when the training script is missing.
pub open spec fn missing_script_text(script: Seq<u8>) -> Seq<char> {
    "train_lora.py not found at "@ + lossy_utf8(script)
}

/// Ensures the training entrypoint exists on disk before spawning: the
/// script's path when `exists` says it is there, else a training error that
/// names the path (rendered as `Path::display` renders it).
pub fn ensure_train_script_present(script: Vec<u8>, exists: bool) -> (r: Result<
    Vec<u8>,
    OmniForgeError,
>)
    ensures
        exists ==> r == Ok::<Vec<u8>, OmniForgeError>(script),
        !exists ==> (r matches Err(OmniForgeError::Training { message }) && message@
            == missing_script_text(script@)),
{
    if exists {
        Ok(script)
    } else {
        let mut message = String::from_str("train_lora.py not found at ");
        let shown = lossy_text(script.as_slice());
        message.append(shown.as_str());
        Err(OmniForgeError::Training { message })
    }
}

} // verus!
