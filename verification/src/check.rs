//! The check: every recorded file below a directory is digested, and the
//! digests are held against the recorded ones.
//!
//! The operation is a machine. `check` takes the state and what came of the
//! last action, and gives the next action; whoever runs it reads the file
//! system as the actions say.

use vstd::prelude::*;
use std::path::PathBuf;
use crate::checksum_error::ChecksumError;
use crate::checksum_error::texts;
use crate::checksum_file::ChecksumFile;
use crate::checksum_file::confirmed;
use crate::checksum_file::lemma_no_mismatch_iff_all_confirmed;
use crate::checksum_file::mismatches;
use crate::checksum_file::outcomes;
use crate::checksum_file::text_of;
use crate::fatal::Fatal;
use crate::paths::join;
use crate::paths::path_from;
use crate::paths::path_joined;
use crate::paths::path_of_text;
use crate::record_text::Record;
use crate::record_text::records_of_lines;

verus! {

/// What the check waits for.
#[derive(Debug, Clone, Copy, PartialEq, Eq, Structural)]
pub enum CheckPhase {
    Created,
    Reading,
    Digesting,
    Done,
}

/// What came of an action.
#[derive(Debug, PartialEq, Eq)]
pub enum CheckEvent {
    /// The operation begins.
    Started,
    /// The lines of the checksum file, each without its line end, if the
    /// file could be read.
    ListRead { lines: Option<Vec<String>> },
    /// The digest of the file, if the file could be read.
    Digested { digest: Option<String> },
}

/// What is to be done next.
#[derive(Debug, PartialEq, Eq)]
pub enum CheckAction {
    /// Read the checksum file.
    ReadList,
    /// Digest the content of the file.
    Digest { path: PathBuf },
    /// Stop: nothing more can be done.
    Abort { reason: Fatal },
    /// The check is over. Where it has not succeeded, the state names the
    /// files that did not match.
    Finish { success: bool },
}

/// The state of a check.
pub struct Check {
    pub phase: CheckPhase,
    /// The directory below which the files are looked for.
    pub source: PathBuf,
    /// The records that were read from the checksum file.
    pub checksums: ChecksumFile,
    /// What came of digesting the files so far, record by record.
    pub digests: Vec<Option<String>>,
    /// The files that did not match, once the check is over.
    pub error: ChecksumError,
}

/// The state of a check as contracts see it.
pub struct CheckView {
    pub phase: CheckPhase,
    pub source: PathBuf,
    pub records: Seq<Record>,
    pub found: Seq<Option<Seq<char>>>,
    pub reported: Seq<Seq<char>>,
}

impl View for Check {
    type V = CheckView;

    open spec fn view(&self) -> CheckView {
        CheckView {
            phase: self.phase,
            source: self.source,
            records: self.checksums@,
            found: outcomes(self.digests@),
            reported: self.error@,
        }
    }
}

/// The operation stops.
pub open spec fn check_aborted(s: CheckView, reason: Fatal) -> (CheckView, CheckAction) {
    (CheckView { phase: CheckPhase::Done, ..s }, CheckAction::Abort { reason })
}

/// The check turns to the first record without a digest: its file is the
/// one at the record's path below the source. When every record has its
/// digest the check is over: it reports the records that are not confirmed,
/// and has succeeded if there is none.
pub open spec fn check_turns(s: CheckView) -> (CheckView, CheckAction) {
    if s.found.len() < s.records.len() {
        (
            CheckView { phase: CheckPhase::Digesting, ..s },
            CheckAction::Digest {
                path: path_joined(s.source, path_of_text(s.records[s.found.len() as int].path)),
            },
        )
    } else {
        let reported = mismatches(s.records, s.found);
        (
            CheckView { phase: CheckPhase::Done, reported, ..s },
            CheckAction::Finish { success: reported.len() == 0 },
        )
    }
}

/// One step of the check: the state after the event, and the next action.
/// A checksum file that cannot be read stops the check before any file is
/// looked at. An event that does not answer the last action stops it too,
/// and so does any event once the check is done.
pub open spec fn check_step(s: CheckView, e: CheckEvent) -> (CheckView, CheckAction) {
    match (s.phase, e) {
        (CheckPhase::Created, CheckEvent::Started) => (
            CheckView { phase: CheckPhase::Reading, ..s },
            CheckAction::ReadList,
        ),
        (CheckPhase::Reading, CheckEvent::ListRead { lines }) => match lines {
            Some(t) => check_turns(
                CheckView { records: records_of_lines(texts(t@)), found: Seq::empty(), ..s },
            ),
            None => check_aborted(s, Fatal::ListUnreadable),
        },
        (CheckPhase::Digesting, CheckEvent::Digested { digest }) => check_turns(
            CheckView {
                found: s.found.push(text_of(digest)),
                ..s
            },
        ),
        _ => check_aborted(s, Fatal::OutOfTurn),
    }
}

/// The check ends well exactly when every record is confirmed by the digest
/// that was found for it, and it reports the records that are not.
pub proof fn lemma_check_verdict(s: CheckView, e: CheckEvent)
    ensures
        check_step(s, e).1 matches CheckAction::Finish { success } ==> {
            let after = check_step(s, e).0;
            &&& after.reported == mismatches(after.records, after.found)
            &&& after.found.len() >= after.records.len()
            &&& success <==> (forall|i: int|
                0 <= i < after.records.len() ==> confirmed(after.records, after.found, i))
        },
{
    let after = check_step(s, e).0;
    lemma_no_mismatch_iff_all_confirmed(after.records, after.found);
}

/// No file is looked at when the checksum file cannot be read: the check
/// stops at once.
pub proof fn lemma_check_unreadable_list(s: CheckView)
    requires
        s.phase == CheckPhase::Reading,
    ensures
        check_step(s, CheckEvent::ListRead { lines: None }) == check_aborted(
            s,
            Fatal::ListUnreadable,
        ),
{
}

impl Check {
    /// A check of the files below `source` that has not begun.
    pub fn new(source: PathBuf) -> (state: Self)
        ensures
            state@.phase == CheckPhase::Created,
            state@.source == source,
            state@.records == Seq::<Record>::empty(),
            state@.found == Seq::<Option<Seq<char>>>::empty(),
            state@.reported == Seq::<Seq<char>>::empty(),
    {
        let state = Check {
            phase: CheckPhase::Created,
            source,
            checksums: ChecksumFile::new(),
            digests: Vec::new(),
            error: ChecksumError::new(),
        };
        assert(state@.found =~= Seq::<Option<Seq<char>>>::empty());
        state
    }

    fn abort(&mut self, reason: Fatal) -> (action: CheckAction)
        ensures
            (final(self)@, action) == check_aborted(old(self)@, reason),
    {
        self.phase = CheckPhase::Done;
        CheckAction::Abort { reason }
    }

    fn turn(&mut self) -> (action: CheckAction)
        ensures
            (final(self)@, action) == check_turns(old(self)@),
    {
        let i = self.digests.len();
        if i < self.checksums.files.len() {
            let name = path_from(self.checksums.files[i].path.as_str());
            self.phase = CheckPhase::Digesting;
            CheckAction::Digest { path: join(&self.source, &name) }
        } else {
            self.phase = CheckPhase::Done;
            match self.checksums.check(&self.digests) {
                Ok(()) => {
                    self.error = ChecksumError::new();
                    assert(self.error@ =~= mismatches(self.checksums@, outcomes(self.digests@)));
                    CheckAction::Finish { success: true }
                },
                Err(error) => {
                    self.error = error;
                    CheckAction::Finish { success: false }
                },
            }
        }
    }
}

/// Takes the check one step on: `state` becomes the state after `event`,
/// and the result is what is to be done next.
pub fn check(state: &mut Check, event: CheckEvent) -> (action: CheckAction)
    ensures
        (final(state)@, action) == check_step(old(state)@, event),
{
    match (state.phase, event) {
        (CheckPhase::Created, CheckEvent::Started) => {
            state.phase = CheckPhase::Reading;
            CheckAction::ReadList
        },
        (CheckPhase::Reading, CheckEvent::ListRead { lines }) => {
            match lines {
                Some(t) => {
                    state.checksums = ChecksumFile::from_file(&t);
                    state.digests = Vec::new();
                    assert(outcomes(state.digests@) =~= Seq::<Option<Seq<char>>>::empty());
                    state.turn()
                },
                None => state.abort(Fatal::ListUnreadable),
            }
        },
        (CheckPhase::Digesting, CheckEvent::Digested { digest }) => {
            let ghost before = outcomes(state.digests@);
            let ghost found = text_of(digest);
            state.digests.push(digest);
            assert(outcomes(state.digests@) =~= before.push(found));
            state.turn()
        },
        _ => state.abort(Fatal::OutOfTurn),
    }
}

} // verus!
