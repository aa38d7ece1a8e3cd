//! What the command line supplies, and the paths that follow from it.

use vstd::prelude::*;
use std::path::PathBuf;
use crate::checksum_file::text_of;
use crate::paths::join;
use crate::paths::path_from;
use crate::paths::path_joined;
use crate::paths::path_of_text;

verus! {

/// Which of the recorded files a restore writes.
#[derive(Debug, Clone, Copy, PartialEq, Eq, Structural)]
pub enum Policy {
    /// Every file, whatever stands in its place.
    All,
    /// Only the files that are not there.
    OnlyMissing,
    /// Meant for files whose copy is more recent. No dates are compared:
    /// every file is written, as with `All`.
    OnlyNewer,
}

/// What was given on the command line.
#[derive(Debug)]
pub struct Args {
    /// Source directory of the backup.
    pub source: String,
    /// Target directory of the backup.
    pub target: Option<String>,
    /// File that holds the checksums.
    pub checksum_file: Option<String>,
    /// Verify against the checksum file only.
    pub check: bool,
    /// Restore files.
    pub restore: bool,
    /// Which files a restore writes.
    pub policy: Policy,
}

/// The name of the checksum file where none is given.
pub open spec fn default_file_name() -> Seq<char> {
    "checksums.txt"@
}

/// Where the checksum file is: the one that was named; else the one of the
/// default name in the target directory; else, without a target, that in
/// the source directory.
pub open spec fn checksum_path(
    source: Seq<char>,
    target: Option<Seq<char>>,
    named: Option<Seq<char>>,
) -> PathBuf {
    match named {
        Some(file) => path_of_text(file),
        None => match target {
            Some(directory) => path_joined(
                path_of_text(directory),
                path_of_text(default_file_name()),
            ),
            None => path_joined(path_of_text(source), path_of_text(default_file_name())),
        },
    }
}

/// Resolves the place of the checksum file from the source, the target if
/// there is one, and the file that was named if one was.
pub fn resolve_manifest_path(
    source: &String,
    target: &Option<String>,
    named: &Option<String>,
) -> (path: PathBuf)
    ensures
        path == checksum_path(source@, text_of(*target), text_of(*named)),
{
    match named {
        Some(file) => path_from(file.as_str()),
        None => {
            let name = path_from("checksums.txt");
            match target {
                Some(directory) => join(&path_from(directory.as_str()), &name),
                None => join(&path_from(source.as_str()), &name),
            }
        },
    }
}

impl Args {
    /// The source directory.
    pub fn get_source(&self) -> (path: PathBuf)
        ensures
            path == path_of_text(self.source@),
    {
        path_from(self.source.as_str())
    }

    /// The target directory, if one was given.
    pub fn get_target(&self) -> (path: Option<PathBuf>)
        ensures
            path == match self.target {
                Some(directory) => Some(path_of_text(directory@)),
                None => None,
            },
    {
        match &self.target {
            Some(value) => Some(path_from(value.as_str())),
            None => None,
        }
    }

    /// The checksum file: the one that was named, else `checksums.txt` in
    /// the target directory, else, without a target, in the source
    /// directory.
    pub fn get_checksum_file(&self) -> (path: PathBuf)
        ensures
            path == checksum_path(self.source@, text_of(self.target), text_of(self.checksum_file)),
    {
        resolve_manifest_path(&self.source, &self.target, &self.checksum_file)
    }
}

} // verus!
