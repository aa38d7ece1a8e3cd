//! Paths of the file system. A path is carried as std's `PathBuf`; what std
//! computes from paths has a name here, and nothing is said of it but that
//! it depends on the paths alone.

use vstd::prelude::*;
use std::path::PathBuf;

verus! {

/// std's `PathBuf`, of which Verus sees nothing inside.
#[verifier::external_type_specification]
#[verifier::external_body]
pub struct ExPathBuf(std::path::PathBuf);

/// The path that `PathBuf::from` makes of a text.
pub uninterp spec fn path_of_text(text: Seq<char>) -> PathBuf;

/// The path that `Path::join` makes of a path and one to go below it.
pub uninterp spec fn path_joined(base: PathBuf, below: PathBuf) -> PathBuf;

/// What `Path::strip_prefix` leaves of a path when `base` is taken from its
/// front, if the path starts with `base`.
pub uninterp spec fn path_below(path: PathBuf, base: PathBuf) -> Option<PathBuf>;

/// The text that `Path::to_string_lossy` gives for a path.
pub uninterp spec fn path_text(path: PathBuf) -> Seq<char>;

/// `PathBuf::clone` of std: the copy is the same path.
pub assume_specification[ <PathBuf as Clone>::clone ](path: &PathBuf) -> (copy: PathBuf)
    ensures
        copy == *path,
;

/// `PathBuf::from` of std, on a text: the path that the text spells.
#[verifier::external_body]
pub(crate) fn path_from(text: &str) -> (path: PathBuf)
    ensures
        path == path_of_text(text@),
{
    PathBuf::from(text)
}

/// `Path::join` of std: `below` adjoined to `base`.
#[verifier::external_body]
pub(crate) fn join(base: &PathBuf, below: &PathBuf) -> (path: PathBuf)
    ensures
        path == path_joined(*base, *below),
{
    base.join(below)
}

/// `Path::strip_prefix` of std: the rest of `path` below `base`, or nothing
/// where `path` does not start with `base`.
#[verifier::external_body]
pub(crate) fn strip_prefix(path: &PathBuf, base: &PathBuf) -> (rest: Option<PathBuf>)
    ensures
        rest == path_below(*path, *base),
{
    match path.strip_prefix(base) {
        Ok(rest) => Some(rest.to_path_buf()),
        Err(_) => None,
    }
}

/// `Path::to_string_lossy` of std: the path as text.
#[verifier::external_body]
pub(crate) fn to_text(path: &PathBuf) -> (text: String)
    ensures
        text@ == path_text(*path),
{
    path.to_string_lossy().into_owned()
}

} // verus!
