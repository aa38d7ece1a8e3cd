//! What a failed verification reports.

use vstd::prelude::*;

verus! {

/// The texts of a list of strings.
pub open spec fn texts(names: Seq<String>) -> Seq<Seq<char>> {
    Seq::new(names.len(), |i: int| names[i]@)
}

/// The paths whose files did not match their recorded digest, in the order
/// of the records.
#[derive(Debug, Clone)]
pub struct ChecksumError {
    pub file_names: Vec<String>,
}

impl View for ChecksumError {
    type V = Seq<Seq<char>>;

    open spec fn view(&self) -> Seq<Seq<char>> {
        texts(self.file_names@)
    }
}

impl ChecksumError {
    /// A report that names no file yet.
    pub fn new() -> (error: Self)
        ensures
            error@ == Seq::<Seq<char>>::empty(),
            error.file_names@.len() == 0,
    {
        let error = ChecksumError { file_names: Vec::new() };
        assert(error@ =~= Seq::<Seq<char>>::empty());
        error
    }
}

} // verus!
