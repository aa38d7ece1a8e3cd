//! Why an operation stops before it has done its work.

use vstd::prelude::*;

verus! {

#[derive(Debug, Clone, Copy, PartialEq, Eq, Structural)]
pub enum Fatal {
    /// The source of a backup is no directory.
    SourceNotDirectory,
    /// The source directory could not be made.
    SourceNotCreated,
    /// The source directory has no canonical path.
    SourceUnresolved,
    /// The target of a restore is no directory.
    TargetNotDirectory,
    /// The target directory could not be made.
    TargetNotCreated,
    /// The target directory has no canonical path.
    TargetUnresolved,
    /// The checksum file could not be read.
    ListUnreadable,
    /// An event came that answers no action of the operation.
    OutOfTurn,
}

} // verus!
