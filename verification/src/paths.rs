//! File-system paths: an opaque `PathBuf` carried through the library, and
//! joining path components given as text.
use std::path::{Path, PathBuf};
use vstd::prelude::*;

verus! {

#[verifier::external_type_specification]
#[verifier::external_body]
pub struct ExPathBuf(PathBuf);

/// The text of `base` joined with `part` by `Path::join` on the platform the
/// crate is built for.
pub uninterp spec fn joined_path(base: Seq<char>, part: Seq<char>) -> Seq<char>;

/// Calls `Path::join` on `Path::new(base)` and reads the result back with
/// `to_string_lossy`, which is exact here because both inputs are UTF-8. The
/// contract only names the result: a function of the two texts alone.
#[verifier::external_body]
pub(crate) fn join_path(base: &str, part: &str) -> (joined: String)
    ensures
        joined@ == joined_path(base@, part@),
{
    Path::new(base).join(part).to_string_lossy().into_owned()
}

} // verus!
