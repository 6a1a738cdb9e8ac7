//! High-level import entrypoints used by the GUI and CLI wrappers.
//!
//! The shell reads the file's metadata; this module decides the outcome.

use vstd::prelude::*;
use crate::error::OmniForgeError;

verus! {

/// The outcome of importing a single file or directory whose metadata lookup
/// gave `metadata` (whether the path is a directory, or the I/O error): a
/// coarse chunk count of 1 for progress UI, or the I/O error.
pub fn import_outcome(metadata: Result<bool, std::io::Error>) -> (r: Result<usize, OmniForgeError>)
    ensures
        metadata is Ok ==> r == Ok::<usize, OmniForgeError>(1),
        metadata matches Err(e) ==> r == Err::<usize, OmniForgeError>(OmniForgeError::Io(e)),
{
    match metadata {
        Ok(is_dir) => {
            if is_dir {
                Ok(1)
            } else {
                Ok(1)
            }
        },
        Err(e) => Err(OmniForgeError::Io(e)),
    }
}

} // verus!
