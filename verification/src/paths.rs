//! XDG-based directory layout for OmniForge (config, data, cache).
//!
//! The directories depend on the environment (`$HOME`, `$XDG_*_HOME`); they
//! are resolved by the `directories` crate. Paths are OS path bytes.

use vstd::prelude::*;
use crate::error::OmniForgeError;
use crate::fspath::display_name;
use directories::ProjectDirs;
use vstd::string::StringExecFns;

verus! {

/// The configuration, data and cache directories of a project (OS path bytes).
#[derive(Debug, Clone, PartialEq, Eq)]
pub struct ProjectPaths {
    /// The configuration directory.
    pub config: Vec<u8>,
    /// The data directory.
    pub data: Vec<u8>,
    /// The cache directory.
    pub cache: Vec<u8>,
}

/// Whether `name` is an application name that `directories` uses unchanged as
/// the last component of the project's directories on Linux: non-empty, of
/// lowercase ASCII letters, digits, `-` and `_` only.
pub open spec fn plain_project_name(name: Seq<char>) -> bool {
    &&& name.len() > 0
    &&& forall|i: int|
        0 <= i < name.len() ==> {
            let c = #[trigger] name[i];
            ('a' <= c && c <= 'z') || ('0' <= c && c <= '9') || c == '-' || c == '_'
        }
}

/// The directories of `ProjectDirs::from(qualifier, organization,
/// application)` on Linux, as path bytes (`as_encoded_bytes`).
///
/// Claims what `directories` (`lin.rs`, `project_dirs_from_path`) shows: each
/// directory is a base directory joined with the project path, which for such
/// an application name is the name itself, so the file name of each directory
/// is the application name. Which base directories are used, and whether a
/// home directory is found at all, depends on the environment and is not
/// claimed. The claim is of the Unix implementations (Linux, which this
/// project targets, and macOS); on Windows `directories` appends a further
/// `config` or `data` component and the claim would not hold.
#[verifier::external_body]
fn project_paths_from(qualifier: &str, organization: &str, application: &str) -> (r: Option<
    ProjectPaths,
>)
    requires
        plain_project_name(application@),
    ensures
        r matches Some(p) ==> {
            &&& display_name(p.config@) == application@
            &&& display_name(p.data@) == application@
            &&& display_name(p.cache@) == application@
        },
{
    match ProjectDirs::from(qualifier, organization, application) {
        Some(d) => Some(ProjectPaths {
            config: d.config_dir().as_os_str().as_encoded_bytes().to_vec(),
            data: d.data_dir().as_os_str().as_encoded_bytes().to_vec(),
            cache: d.cache_dir().as_os_str().as_encoded_bytes().to_vec(),
        }),
        None => None,
    }
}

/// The message of the error raised when the project directories cannot be
/// resolved.
pub open spec fn unresolved_dirs_text() -> Seq<char> {
    "unable to resolve XDG project directories"@
}

/// Whether `r` is an error of kind `Config` saying that the project
/// directories could not be resolved.
pub open spec fn is_unresolved_dirs<T>(r: Result<T, OmniForgeError>) -> bool {
    r matches Err(OmniForgeError::Config { message }) && message@ == unresolved_dirs_text()
}

/// The project directories found, or the configuration error raised when
/// there are none.
pub fn project_dirs_or_error(found: Option<ProjectPaths>) -> (r: Result<ProjectPaths, OmniForgeError>)
    ensures
        found matches Some(d) ==> r == Ok::<ProjectPaths, OmniForgeError>(d),
        found is None ==> is_unresolved_dirs(r),
{
    match found {
        Some(d) => Ok(d),
        None => Err(
            OmniForgeError::Config {
                message: String::from_str("unable to resolve XDG project directories"),
            },
        ),
    }
}

/// The configuration directory among the project directories found, or the
/// configuration error raised when there are none.
pub fn config_dir_from(found: Option<ProjectPaths>) -> (r: Result<Vec<u8>, OmniForgeError>)
    ensures
        found matches Some(p) ==> r == Ok::<Vec<u8>, OmniForgeError>(p.config),
        found is None ==> is_unresolved_dirs(r),
{
    let dirs = project_dirs_or_error(found)?;
    Ok(dirs.config)
}

/// The data directory among the project directories found, or the
/// configuration error raised when there are none.
pub fn data_dir_from(found: Option<ProjectPaths>) -> (r: Result<Vec<u8>, OmniForgeError>)
    ensures
        found matches Some(p) ==> r == Ok::<Vec<u8>, OmniForgeError>(p.data),
        found is None ==> is_unresolved_dirs(r),
{
    let dirs = project_dirs_or_error(found)?;
    Ok(dirs.data)
}

/// The cache directory among the project directories found, or the
/// configuration error raised when there are none.
pub fn cache_dir_from(found: Option<ProjectPaths>) -> (r: Result<Vec<u8>, OmniForgeError>)
    ensures
        found matches Some(p) ==> r == Ok::<Vec<u8>, OmniForgeError>(p.cache),
        found is None ==> is_unresolved_dirs(r),
{
    let dirs = project_dirs_or_error(found)?;
    Ok(dirs.cache)
}

/// Returns the configuration directory (`XDG_CONFIG_HOME/omniforge`): the
/// configuration directory of the application `omniforge`, whose last
/// component is `omniforge`.
pub fn config_dir() -> (r: Result<Vec<u8>, OmniForgeError>)
    ensures
        r is Err ==> is_unresolved_dirs(r),
        r matches Ok(p) ==> display_name(p@) == "omniforge"@,
{
    proof {
        reveal_strlit("omniforge");
    }
    config_dir_from(project_paths_from("", "", "omniforge"))
}

/// Returns the data directory (`XDG_DATA_HOME/omniforge`): the data directory
/// of the application `omniforge`, whose last component is `omniforge`.
pub fn data_dir() -> (r: Result<Vec<u8>, OmniForgeError>)
    ensures
        r is Err ==> is_unresolved_dirs(r),
        r matches Ok(p) ==> display_name(p@) == "omniforge"@,
{
    proof {
        reveal_strlit("omniforge");
    }
    data_dir_from(project_paths_from("", "", "omniforge"))
}

/// Returns the cache directory (`XDG_CACHE_HOME/omniforge`): the cache
/// directory of the application `omniforge`, whose last component is
/// `omniforge`.
pub fn cache_dir() -> (r: Result<Vec<u8>, OmniForgeError>)
    ensures
        r is Err ==> is_unresolved_dirs(r),
        r matches Ok(p) ==> display_name(p@) == "omniforge"@,
{
    proof {
        reveal_strlit("omniforge");
    }
    cache_dir_from(project_paths_from("", "", "omniforge"))
}

} // verus!
