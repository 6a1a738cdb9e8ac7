//! User-facing preferences of the desktop shell, kept in a TOML file
//! (`config.toml` in the configuration directory).
//!
//! The file is parsed by the `toml` crate; this module decides what the
//! parsed document means: its top-level `last_workspace` string, if any, is
//! the last opened workspace, and other keys are left alone.

use vstd::prelude::*;
use crate::error::OmniForgeError;
use crate::fspath::{copy_bytes, join, joined, utf8_string};
use crate::text::str_eq;
use vstd::string::StrSliceExecFns;
use vstd::string::StringExecFns;
use vstd::utf8::{decode_utf8, encode_utf8, valid_utf8};

verus! {
/// Runtime configuration snapshot for the GUI shell.
#[derive(Debug, Clone, PartialEq, Eq)]
pub struct GuiConfig {
    /// Last opened workspace directory (OS path bytes).
    pub last_workspace: Option<Vec<u8>>,
}

impl Default for GuiConfig {
    fn default() -> (r: Self)
        ensures
            r.last_workspace is None,
    {
        GuiConfig { last_workspace: None }
    }
}

/// The bytes of `config.toml`.
pub open spec fn config_file_name() -> Seq<u8> {
    seq![0x63u8, 0x6fu8, 0x6eu8, 0x66u8, 0x69u8, 0x67u8, 0x2eu8, 0x74u8, 0x6fu8, 0x6du8, 0x6cu8]
}

/// The configuration file in the configuration directory `config_dir`.
pub fn config_file(config_dir: &[u8]) -> (r: Vec<u8>)
    ensures
        r@ == joined(config_dir@, config_file_name()),
{
    let name: Vec<u8> = vec![0x63u8, 0x6fu8, 0x6eu8, 0x66u8, 0x69u8, 0x67u8, 0x2eu8, 0x74u8, 0x6fu8, 0x6du8, 0x6cu8];
    join(config_dir, name.as_slice())
}

/// A top-level entry of a TOML document, as plain values.
#[derive(Debug, Clone, PartialEq, Eq)]
pub struct TopLevelEntry {
    /// The entry's key.
    pub key: String,
    /// The string the entry holds; `None` when its value is of another type
    /// (integer, float, boolean, date-time, array or table).
    pub string_value: Option<String>,
}

impl View for TopLevelEntry {
    type V = (Seq<char>, Option<Seq<char>>);

    open spec fn view(&self) -> (Seq<char>, Option<Seq<char>>) {
        (
            self.key@,
            match self.string_value {
                Some(s) => Some(s@),
                None => None,
            },
        )
    }
}

/// The top-level entries of the TOML document `text`, in the order the
/// `toml` crate yields them; `None` when `text` is not a valid TOML document.
pub uninterp spec fn toml_top_level(text: Seq<char>) -> Option<Seq<(Seq<char>, Option<Seq<char>>)>>;

/// The entries `doc` by their views.
pub open spec fn document_view(doc: Option<Vec<TopLevelEntry>>) -> Option<Seq<(Seq<char>, Option<Seq<char>>)>> {
    match doc {
        Some(es) => Some(es@.map_values(|e: TopLevelEntry| e@)),
        None => None,
    }
}

/// `toml::from_str::<toml::Table>(text)` (toml 0.8), with each top-level
/// value reduced to the string it holds, if it is a string.
///
/// Claims only that the result is a function of `text` alone, named
/// [`toml_top_level`]: which texts are valid TOML and what they hold is the
/// `toml` crate's parser, not restated here.
#[verifier::external_body]
fn parse_toml_top_level(text: &str) -> (r: Option<Vec<TopLevelEntry>>)
    ensures
        document_view(r) == toml_top_level(text@),
{
    match toml::from_str::<toml::Table>(text) {
        Err(_) => None,
        Ok(table) => Some(table.into_iter().map(|(key, value)| {
            let string_value = match value {
                toml::Value::String(s) => Some(s),
                toml::Value::Integer(_) | toml::Value::Float(_) | toml::Value::Boolean(_) => None,
                toml::Value::Datetime(_) | toml::Value::Array(_) | toml::Value::Table(_) => None,
            };
            TopLevelEntry { key, string_value }
        }).collect()),
    }
}

/// The key of the last opened workspace.
pub open spec fn workspace_key() -> Seq<char> {
    "last_workspace"@
}

/// The value of the first entry of `es` with key `key`: `None` when there is
/// none, `Some(None)` when it is not a string.
pub open spec fn lookup(es: Seq<(Seq<char>, Option<Seq<char>>)>, key: Seq<char>) -> Option<Option<Seq<char>>>
    decreases es.len(),
{
    if es.len() == 0 {
        None
    } else if es[0].0 == key {
        Some(es[0].1)
    } else {
        lookup(es.drop_first(), key)
    }
}

/// The message of the error raised for a file that is not valid TOML.
pub open spec fn invalid_config_text() -> Seq<char> {
    "invalid configuration file"@
}

/// The message of the error raised when `last_workspace` is not a string.
pub open spec fn workspace_not_string_text() -> Seq<char> {
    "last_workspace must be a string"@
}

/// Whether `r` is the configuration that the parsed document `doc` gives:
/// an invalid document is a configuration error; otherwise `last_workspace`
/// is the UTF-8 bytes of its top-level string, or unset without that key;
/// a `last_workspace` of another type is a configuration error.
pub open spec fn configured_by(
    doc: Option<Seq<(Seq<char>, Option<Seq<char>>)>>,
    r: Result<GuiConfig, OmniForgeError>,
) -> bool {
    match doc {
        None => r matches Err(OmniForgeError::Config { message }) && message@ == invalid_config_text(),
        Some(es) => match lookup(es, workspace_key()) {
            None => r matches Ok(c) && c.last_workspace is None,
            Some(None) => r matches Err(OmniForgeError::Config { message }) && message@
                == workspace_not_string_text(),
            Some(Some(w)) => r matches Ok(c) && c.last_workspace matches Some(p) && p@
                == encode_utf8(w),
        },
    }
}

fn find_key(es: &Vec<TopLevelEntry>, key: &str) -> (r: Option<usize>)
    ensures
        match lookup(es@.map_values(|e: TopLevelEntry| e@), key@) {
            None => r is None,
            Some(v) => r matches Some(i) && i < es.len() && es@[i as int]@.1 == v,
        },
{
    let ghost all = es@.map_values(|e: TopLevelEntry| e@);
    assert(all.skip(0) =~= all);
    let mut i: usize = 0;
    while i < es.len()
        invariant
            i <= es.len(),
            all == es@.map_values(|e: TopLevelEntry| e@),
            lookup(all, key@) == lookup(all.skip(i as int), key@),
        decreases es.len() - i,
    {
        let ghost rest = all.skip(i as int);
        assert(rest.len() > 0 && rest[0] == es@[i as int]@);
        if str_eq(es[i].key.as_str(), key) {
            return Some(i);
        }
        assert(rest.drop_first() =~= all.skip(i + 1));
        i = i + 1;
    }
    None
}

/// The configuration that a parsed TOML document gives (see
/// [`configured_by`]); `None` stands for a text that is not valid TOML.
pub fn config_from_document(doc: Option<Vec<TopLevelEntry>>) -> (r: Result<GuiConfig, OmniForgeError>)
    ensures
        configured_by(document_view(doc), r),
{
    let es = match doc {
        None => {
            return Err(OmniForgeError::Config { message: String::from_str("invalid configuration file") });
        },
        Some(es) => es,
    };
    proof {
        reveal_strlit("last_workspace");
        reveal_strlit("invalid configuration file");
        reveal_strlit("last_workspace must be a string");
    }
    match find_key(&es, "last_workspace") {
        None => Ok(GuiConfig { last_workspace: None }),
        Some(i) => match &es[i].string_value {
            Some(w) => Ok(GuiConfig { last_workspace: Some(copy_bytes(w.as_str().as_bytes())) }),
            None => Err(
                OmniForgeError::Config { message: String::from_str("last_workspace must be a string") },
            ),
        },
    }
}

impl GuiConfig {
    /// Loads TOML configuration from the contents of the configuration file,
    /// or from no file: without a file it is the default configuration;
    /// otherwise the file must be valid UTF-8 and valid TOML, and
    /// `last_workspace` is its top-level string of that name (unset when the
    /// key is absent). Other keys and tables are ignored.
    pub fn load(contents: Option<&[u8]>) -> (r: Result<Self, OmniForgeError>)
        ensures
            contents is None ==> (r matches Ok(c) && c.last_workspace is None),
            contents matches Some(b) ==> (!valid_utf8(b@) ==> (r matches Err(
                OmniForgeError::Config { message },
            ) && message@ == invalid_config_text())),
            contents matches Some(b) ==> (valid_utf8(b@) ==> configured_by(
                toml_top_level(decode_utf8(b@)),
                r,
            )),
    {
        let bytes = match contents {
            None => {
                return Ok(GuiConfig::default());
            },
            Some(b) => b,
        };
        match utf8_string(bytes) {
            None => {
                proof {
                    reveal_strlit("invalid configuration file");
                }
                Err(OmniForgeError::Config { message: String::from_str("invalid configuration file") })
            },
            Some(text) => config_from_document(parse_toml_top_level(text.as_str())),
        }
    }
}

} // verus!
