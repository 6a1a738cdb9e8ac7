//! Central error type for all OmniForge operations.

use vstd::prelude::*;
use vstd::string::StringExecFns;

verus! {

/// Declares `std::io::Error` so that the library can carry it.
#[verifier::external_type_specification]
#[verifier::external_body]
pub struct ExIoError(std::io::Error);

/// Top-level error returned by fallible OmniForge operations.
#[derive(Debug)]
pub enum OmniForgeError {
    /// Filesystem or OS-level failures.
    Io(std::io::Error),
    /// Configuration load/save problems.
    Config { message: String },
    /// Model download, format, or path issues.
    Model { message: String },
    /// Training orchestration or Python bridge failures.
    Training { message: String },
    /// RAG indexing, embedding, or retrieval failures.
    Rag { message: String },
    /// GPU / driver / capability detection issues.
    Hardware { message: String },
}

/// The text of `std::io::Error`'s `Display` impl.
///
/// Nothing is claimed of the text: it comes from the operating system's
/// description of the error code.
#[verifier::external_body]
fn io_error_text(e: &std::io::Error) -> String {
    e.to_string()
}

/// The operator-facing text of `OmniForgeError::Io` whose operating-system
/// text is `os_text`.
pub open spec fn io_text(os_text: Seq<char>) -> Seq<char> {
    "I/O error: "@ + os_text
}

/// The description of an I/O error whose `Display` text is `os_text`.
pub fn io_description(os_text: &str) -> (r: String)
    ensures
        r@ == io_text(os_text@),
{
    let mut r = String::from_str("I/O error: ");
    r.append(os_text);
    r
}

/// The operator-facing text of `OmniForgeError::Config` with `message`.
pub open spec fn config_text(message: Seq<char>) -> Seq<char> {
    "configuration error: "@ + message
}

/// The operator-facing text of `OmniForgeError::Model` with `message`.
pub open spec fn model_text(message: Seq<char>) -> Seq<char> {
    "model error: "@ + message
}

/// The operator-facing text of `OmniForgeError::Training` with `message`.
pub open spec fn training_text(message: Seq<char>) -> Seq<char> {
    "training error: "@ + message
}

/// The operator-facing text of `OmniForgeError::Rag` with `message`.
pub open spec fn rag_text(message: Seq<char>) -> Seq<char> {
    "RAG error: "@ + message
}

/// The operator-facing text of `OmniForgeError::Hardware` with `message`.
pub open spec fn hardware_text(message: Seq<char>) -> Seq<char> {
    "hardware error: "@ + message
}

/// Whether `t` is the description of `e`: the fixed prefix of its kind
/// followed by its message (for `Io`, by the operating system's text).
pub open spec fn describes(e: OmniForgeError, t: Seq<char>) -> bool {
    match e {
        OmniForgeError::Io(_) => t.len() >= "I/O error: "@.len() && t.subrange(
            0,
            "I/O error: "@.len() as int,
        ) == "I/O error: "@,
        OmniForgeError::Config { message } => t == config_text(message@),
        OmniForgeError::Model { message } => t == model_text(message@),
        OmniForgeError::Training { message } => t == training_text(message@),
        OmniForgeError::Rag { message } => t == rag_text(message@),
        OmniForgeError::Hardware { message } => t == hardware_text(message@),
    }
}

/// The message of the errors raised when the GUI's event channel is closed.
pub open spec fn channel_closed_text() -> Seq<char> {
    "GUI event channel closed"@
}

/// The message of the errors raised when the GUI's event channel is closed.
pub fn channel_closed_message() -> (r: String)
    ensures
        r@ == channel_closed_text(),
{
    String::from_str("GUI event channel closed")
}

impl OmniForgeError {
    /// Human-readable description, as shown in toasts and logs.
    pub fn describe(&self) -> (r: String)
        ensures
            describes(*self, r@),
            match self {
                OmniForgeError::Io(_) => r@.len() >= "I/O error: "@.len() && r@.subrange(
                    0,
                    "I/O error: "@.len() as int,
                ) == "I/O error: "@,
                OmniForgeError::Config { message } => r@ == config_text(message@),
                OmniForgeError::Model { message } => r@ == model_text(message@),
                OmniForgeError::Training { message } => r@ == training_text(message@),
                OmniForgeError::Rag { message } => r@ == rag_text(message@),
                OmniForgeError::Hardware { message } => r@ == hardware_text(message@),
            },
    {
        let (prefix, detail): (&str, String) = match self {
            OmniForgeError::Io(e) => {
                let r = io_description(io_error_text(e).as_str());
                proof {
                    reveal_strlit("I/O error: ");
                    assert(r@.subrange(0, "I/O error: "@.len() as int) =~= "I/O error: "@);
                }
                return r;
            },
            OmniForgeError::Config { message } => ("configuration error: ", message.clone()),
            OmniForgeError::Model { message } => ("model error: ", message.clone()),
            OmniForgeError::Training { message } => ("training error: ", message.clone()),
            OmniForgeError::Rag { message } => ("RAG error: ", message.clone()),
            OmniForgeError::Hardware { message } => ("hardware error: ", message.clone()),
        };
        let mut r = String::from_str(prefix);
        r.append(detail.as_str());
        assert(r@.subrange(0, prefix@.len() as int) =~= prefix@);
        r
    }
}

} // verus!
