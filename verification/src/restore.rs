//! The restore: every recorded file is copied from the backup back to the
//! source, as far as the policy asks for it.
//!
//! The operation is a machine. `restore` takes the state and what came of
//! the last action, and gives the next action; whoever runs it reads and
//! writes the file system as the actions say.

use vstd::prelude::*;
use std::path::PathBuf;
use crate::args::Policy;
use crate::checksum_error::texts;
use crate::checksum_file::ChecksumFile;
use crate::fatal::Fatal;
use crate::paths::join;
use crate::paths::path_from;
use crate::paths::path_joined;
use crate::paths::path_of_text;
use crate::record_text::Record;
use crate::record_text::records_of_lines;

verus! {

/// What the restore waits for.
#[derive(Debug, Clone, Copy, PartialEq, Eq, Structural)]
pub enum RestorePhase {
    Created,
    ProbingTarget,
    ResolvingTarget,
    ProbingSource,
    CreatingSource,
    ResolvingSource,
    Reading,
    Announcing,
    Probing,
    Skipping,
    CreatingParent,
    Copying,
    Done,
}

/// What came of an action.
#[derive(Debug, PartialEq, Eq)]
pub enum RestoreEvent {
    /// The operation begins.
    Started,
    /// Whether the target is a directory.
    TargetProbed { is_dir: bool },
    /// The canonical path of the target, if it has one.
    TargetResolved { resolved: Option<PathBuf> },
    /// Whether the source is a directory.
    SourceProbed { is_dir: bool },
    /// Whether the source directory, with what lies above it, was made.
    SourceCreated { ok: bool },
    /// The canonical path of the source, if it has one.
    SourceResolved { resolved: Option<PathBuf> },
    /// The lines of the checksum file, each without its line end, if the
    /// file could be read.
    ListRead { lines: Option<Vec<String>> },
    /// What was to be told has been told.
    Noted,
    /// Whether there is something at the place of the file in hand.
    FileProbed { exists: bool },
    /// Whether the directories above the file were made.
    ParentCreated { ok: bool },
    /// Whether the file was copied.
    Copied { ok: bool },
}

/// What is to be done next.
#[derive(Debug, PartialEq, Eq)]
pub enum RestoreAction {
    /// Find out whether the target is a directory.
    ProbeTarget { path: PathBuf },
    /// Find the canonical path of the target.
    ResolveTarget { path: PathBuf },
    /// Find out whether the source is a directory.
    ProbeSource { path: PathBuf },
    /// Make the source directory and what lies above it.
    CreateSource { path: PathBuf },
    /// Find the canonical path of the source.
    ResolveSource { path: PathBuf },
    /// Read the checksum file.
    ReadList,
    /// Tell that the file at `path` is in hand.
    Begin { path: PathBuf },
    /// Find out whether there is something at `path`.
    ProbeFile { path: PathBuf },
    /// Tell that the file at `path` is left as it is.
    Skip { path: PathBuf },
    /// Make the directories above `of`.
    CreateParent { of: PathBuf },
    /// Copy the content of `from` to `to`, over what is there.
    CopyFile { from: PathBuf, to: PathBuf },
    /// Stop: nothing more can be done.
    Abort { reason: Fatal },
    /// The restore is over, and has succeeded or not.
    Finish { success: bool },
}

/// The state of a restore.
pub struct Restore {
    pub phase: RestorePhase,
    /// The directory that the files are restored to.
    pub source: PathBuf,
    /// The directory that holds the backup.
    pub target: PathBuf,
    pub policy: Policy,
    /// The records that were read from the checksum file.
    pub checksums: ChecksumFile,
    /// The place in the list of the record in hand.
    pub next: usize,
    /// The place of the file in hand below the source.
    pub source_path: PathBuf,
    /// The place of its copy below the target.
    pub target_path: PathBuf,
    /// Whether anything has gone wrong so far.
    pub failed: bool,
}

/// The state of a restore as contracts see it.
pub struct RestoreView {
    pub phase: RestorePhase,
    pub source: PathBuf,
    pub target: PathBuf,
    pub policy: Policy,
    pub records: Seq<Record>,
    pub next: int,
    pub source_path: PathBuf,
    pub target_path: PathBuf,
    pub failed: bool,
}

impl View for Restore {
    type V = RestoreView;

    open spec fn view(&self) -> RestoreView {
        RestoreView {
            phase: self.phase,
            source: self.source,
            target: self.target,
            policy: self.policy,
            records: self.checksums@,
            next: self.next as int,
            source_path: self.source_path,
            target_path: self.target_path,
            failed: self.failed,
        }
    }
}

/// The rule of each policy: whether a file is written, given whether there
/// is something in its place.
pub open spec fn restores(policy: Policy, exists: bool) -> bool {
    match policy {
        Policy::All => true,
        Policy::OnlyMissing => !exists,
        Policy::OnlyNewer => true,
    }
}

/// Whether a policy has to know what is in the file's place.
pub open spec fn looks_first(policy: Policy) -> bool {
    restores(policy, true) != restores(policy, false)
}

/// The operation stops and has failed.
pub open spec fn restore_aborted(s: RestoreView, reason: Fatal) -> (RestoreView, RestoreAction) {
    (RestoreView { phase: RestorePhase::Done, failed: true, ..s }, RestoreAction::Abort { reason })
}

/// The restore turns to the record at `next`: the file's place is the
/// record's path below the source, that of its copy the same path below the
/// target. After the last record the restore is over, and has succeeded if
/// nothing has failed.
pub open spec fn restore_turns_to(s: RestoreView, next: int, failed: bool) -> (
    RestoreView,
    RestoreAction,
) {
    if 0 <= next < s.records.len() {
        let name = path_of_text(s.records[next].path);
        let source_path = path_joined(s.source, name);
        (
            RestoreView {
                phase: RestorePhase::Announcing,
                next,
                failed,
                source_path,
                target_path: path_joined(s.target, name),
                ..s
            },
            RestoreAction::Begin { path: source_path },
        )
    } else {
        (
            RestoreView { phase: RestorePhase::Done, next, failed, ..s },
            RestoreAction::Finish { success: !failed },
        )
    }
}

/// The step of the restore before the first record: the target must be a
/// directory with a canonical path; the source is made if it is no
/// directory, and must then have a canonical path too; and the checksum
/// file must be readable.
pub open spec fn restore_setup_step(s: RestoreView, e: RestoreEvent) -> (
    RestoreView,
    RestoreAction,
) {
    match (s.phase, e) {
        (RestorePhase::Created, RestoreEvent::Started) => (
            RestoreView { phase: RestorePhase::ProbingTarget, ..s },
            RestoreAction::ProbeTarget { path: s.target },
        ),
        (RestorePhase::ProbingTarget, RestoreEvent::TargetProbed { is_dir }) => if is_dir {
            (
                RestoreView { phase: RestorePhase::ResolvingTarget, ..s },
                RestoreAction::ResolveTarget { path: s.target },
            )
        } else {
            restore_aborted(s, Fatal::TargetNotDirectory)
        },
        (RestorePhase::ResolvingTarget, RestoreEvent::TargetResolved { resolved: path }) => match path {
            Some(p) => (
                RestoreView { phase: RestorePhase::ProbingSource, target: p, ..s },
                RestoreAction::ProbeSource { path: s.source },
            ),
            None => restore_aborted(s, Fatal::TargetUnresolved),
        },
        (RestorePhase::ProbingSource, RestoreEvent::SourceProbed { is_dir }) => if is_dir {
            (
                RestoreView { phase: RestorePhase::ResolvingSource, ..s },
                RestoreAction::ResolveSource { path: s.source },
            )
        } else {
            (
                RestoreView { phase: RestorePhase::CreatingSource, ..s },
                RestoreAction::CreateSource { path: s.source },
            )
        },
        (RestorePhase::CreatingSource, RestoreEvent::SourceCreated { ok }) => if ok {
            (
                RestoreView { phase: RestorePhase::ResolvingSource, ..s },
                RestoreAction::ResolveSource { path: s.source },
            )
        } else {
            restore_aborted(s, Fatal::SourceNotCreated)
        },
        (RestorePhase::ResolvingSource, RestoreEvent::SourceResolved { resolved: path }) => match path {
            Some(p) => (
                RestoreView { phase: RestorePhase::Reading, source: p, ..s },
                RestoreAction::ReadList,
            ),
            None => restore_aborted(s, Fatal::SourceUnresolved),
        },
        (RestorePhase::Reading, RestoreEvent::ListRead { lines }) => match lines {
            Some(t) => restore_turns_to(
                RestoreView { records: records_of_lines(texts(t@)), ..s },
                0,
                s.failed,
            ),
            None => restore_aborted(s, Fatal::ListUnreadable),
        },
        _ => restore_aborted(s, Fatal::OutOfTurn),
    }
}

/// The step of the restore on the record in hand. The policy decides
/// whether the file is written, and looks at the file's place only where the
/// rule needs it. A file that is left is told and is no failure. Whatever
/// fails for one file marks the restore as failed, and the next record is
/// taken up.
pub open spec fn restore_record_step(s: RestoreView, e: RestoreEvent) -> (
    RestoreView,
    RestoreAction,
) {
    let write = (
        RestoreView { phase: RestorePhase::CreatingParent, ..s },
        RestoreAction::CreateParent { of: s.source_path },
    );
    if !(0 <= s.next < s.records.len()) {
        restore_aborted(s, Fatal::OutOfTurn)
    } else {
        match (s.phase, e) {
            (RestorePhase::Announcing, RestoreEvent::Noted) => if looks_first(s.policy) {
                (
                    RestoreView { phase: RestorePhase::Probing, ..s },
                    RestoreAction::ProbeFile { path: s.source_path },
                )
            } else if restores(s.policy, false) {
                write
            } else {
                (
                    RestoreView { phase: RestorePhase::Skipping, ..s },
                    RestoreAction::Skip { path: s.source_path },
                )
            },
            (RestorePhase::Probing, RestoreEvent::FileProbed { exists }) => if restores(
                s.policy,
                exists,
            ) {
                write
            } else {
                (
                    RestoreView { phase: RestorePhase::Skipping, ..s },
                    RestoreAction::Skip { path: s.source_path },
                )
            },
            (RestorePhase::Skipping, RestoreEvent::Noted) => restore_turns_to(
                s,
                s.next + 1,
                s.failed,
            ),
            (RestorePhase::CreatingParent, RestoreEvent::ParentCreated { ok }) => if ok {
                (
                    RestoreView { phase: RestorePhase::Copying, ..s },
                    RestoreAction::CopyFile { from: s.target_path, to: s.source_path },
                )
            } else {
                restore_turns_to(s, s.next + 1, true)
            },
            (RestorePhase::Copying, RestoreEvent::Copied { ok }) => restore_turns_to(
                s,
                s.next + 1,
                s.failed || !ok,
            ),
            _ => restore_aborted(s, Fatal::OutOfTurn),
        }
    }
}

/// Whether the restore has a record in hand.
pub open spec fn on_record(phase: RestorePhase) -> bool {
    phase == RestorePhase::Announcing || phase == RestorePhase::Probing || phase
        == RestorePhase::Skipping || phase == RestorePhase::CreatingParent || phase
        == RestorePhase::Copying
}

/// One step of the restore: the state after the event, and the next action.
/// An event that does not answer the last action stops the restore, and so
/// does any event once the restore is done.
pub open spec fn restore_step(s: RestoreView, e: RestoreEvent) -> (RestoreView, RestoreAction) {
    if on_record(s.phase) {
        restore_record_step(s, e)
    } else {
        restore_setup_step(s, e)
    }
}

/// A failure is not forgotten: once the restore is marked as failed, it
/// stays so after every event.
pub proof fn lemma_restore_failure_stays(s: RestoreView, e: RestoreEvent)
    requires
        s.failed,
    ensures
        restore_step(s, e).0.failed,
{
}

/// The restore reports success only when nothing had failed, and what it
/// reports is what the state says. It ends when the last record is done.
pub proof fn lemma_restore_success(s: RestoreView, e: RestoreEvent)
    ensures
        restore_step(s, e).1 is Finish ==> restore_step(s, e).0.next >= restore_step(
            s,
            e,
        ).0.records.len(),
        restore_step(s, e).1 matches RestoreAction::Finish { success } ==> {
            &&& success == !restore_step(s, e).0.failed
            &&& success ==> !s.failed
        },
{
}

/// The list is read once: no step but the reading of the checksum file
/// changes the records, and no step changes the policy.
pub proof fn lemma_restore_keeps_list(s: RestoreView, e: RestoreEvent)
    ensures
        s.phase != RestorePhase::Reading ==> restore_step(s, e).0.records == s.records,
        restore_step(s, e).0.policy == s.policy,
{
}

/// Under `All`, and under `OnlyNewer`, every file is written: when a record
/// has been announced the next action makes the directories for it, and no
/// step ever looks at a file's place or leaves a file as it is.
pub proof fn lemma_restore_all_writes(s: RestoreView, e: RestoreEvent)
    requires
        s.policy == Policy::All || s.policy == Policy::OnlyNewer,
    ensures
        !(restore_step(s, e).1 is Skip),
        !(restore_step(s, e).1 is ProbeFile),
        s.phase == RestorePhase::Announcing && e == RestoreEvent::Noted && 0 <= s.next
            < s.records.len() ==> restore_step(s, e).1 == (RestoreAction::CreateParent {
            of: s.source_path,
        }),
{
}

/// Under `OnlyMissing` the file's place is looked at first. A file that is
/// there is left as it is, which is no failure; one that is not there is
/// written.
pub proof fn lemma_restore_only_missing(s: RestoreView, exists: bool)
    requires
        s.policy == Policy::OnlyMissing,
        0 <= s.next < s.records.len(),
    ensures
        s.phase == RestorePhase::Announcing ==> restore_step(s, RestoreEvent::Noted).1 == (
        RestoreAction::ProbeFile { path: s.source_path }),
        s.phase == RestorePhase::Probing && exists ==> {
            &&& restore_step(s, RestoreEvent::FileProbed { exists }).1 == (RestoreAction::Skip {
                path: s.source_path,
            })
            &&& restore_step(s, RestoreEvent::FileProbed { exists }).0.failed == s.failed
        },
        s.phase == RestorePhase::Probing && !exists ==> restore_step(
            s,
            RestoreEvent::FileProbed { exists },
        ).1 == (RestoreAction::CreateParent { of: s.source_path }),
{
}

/// A file is copied from its place below the target to its place below the
/// source, and both places are the record's path below the two directories.
pub proof fn lemma_restore_copies_record(s: RestoreView, next: int, failed: bool)
    requires
        0 <= next < s.records.len(),
    ensures
        ({
            let turned = restore_turns_to(s, next, failed).0;
            let written = RestoreView { phase: RestorePhase::CreatingParent, ..turned };
            restore_step(written, RestoreEvent::ParentCreated { ok: true }).1 == (
            RestoreAction::CopyFile {
                from: path_joined(s.target, path_of_text(s.records[next].path)),
                to: path_joined(s.source, path_of_text(s.records[next].path)),
            })
        }),
{
}

/// Whether a file is written under a policy, given whether there is
/// something in its place.
pub fn should_restore(policy: Policy, exists: bool) -> (write: bool)
    ensures
        write == restores(policy, exists),
{
    match policy {
        Policy::All => true,
        Policy::OnlyMissing => !exists,
        Policy::OnlyNewer => true,
    }
}

impl Restore {
    /// A restore into `source` from the backup in `target` that has not
    /// begun.
    pub fn new(source: PathBuf, target: PathBuf, policy: Policy) -> (state: Self)
        ensures
            state@.phase == RestorePhase::Created,
            state@.source == source,
            state@.target == target,
            state@.policy == policy,
            state@.records == Seq::<Record>::empty(),
            state@.next == 0,
            state@.source_path == source,
            state@.target_path == target,
            !state@.failed,
    {
        Restore {
            phase: RestorePhase::Created,
            source_path: source.clone(),
            target_path: target.clone(),
            source,
            target,
            policy,
            checksums: ChecksumFile::new(),
            next: 0,
            failed: false,
        }
    }

    fn abort(&mut self, reason: Fatal) -> (action: RestoreAction)
        ensures
            (final(self)@, action) == restore_aborted(old(self)@, reason),
    {
        self.phase = RestorePhase::Done;
        self.failed = true;
        RestoreAction::Abort { reason }
    }

    fn turn_to(&mut self, next: usize, failed: bool) -> (action: RestoreAction)
        ensures
            (final(self)@, action) == restore_turns_to(old(self)@, next as int, failed),
    {
        self.next = next;
        self.failed = failed;
        if next < self.checksums.files.len() {
            let name = path_from(self.checksums.files[next].path.as_str());
            self.source_path = join(&self.source, &name);
            self.target_path = join(&self.target, &name);
            self.phase = RestorePhase::Announcing;
            RestoreAction::Begin { path: self.source_path.clone() }
        } else {
            self.phase = RestorePhase::Done;
            RestoreAction::Finish { success: !failed }
        }
    }

    fn write(&mut self) -> (action: RestoreAction)
        ensures
            final(self)@ == (RestoreView { phase: RestorePhase::CreatingParent, ..old(self)@ }),
            action == (RestoreAction::CreateParent { of: old(self)@.source_path }),
    {
        self.phase = RestorePhase::CreatingParent;
        RestoreAction::CreateParent { of: self.source_path.clone() }
    }

    fn skip(&mut self) -> (action: RestoreAction)
        ensures
            final(self)@ == (RestoreView { phase: RestorePhase::Skipping, ..old(self)@ }),
            action == (RestoreAction::Skip { path: old(self)@.source_path }),
    {
        self.phase = RestorePhase::Skipping;
        RestoreAction::Skip { path: self.source_path.clone() }
    }

    fn setup(&mut self, event: RestoreEvent) -> (action: RestoreAction)
        ensures
            (final(self)@, action) == restore_setup_step(old(self)@, event),
    {
        match (self.phase, event) {
            (RestorePhase::Created, RestoreEvent::Started) => {
                self.phase = RestorePhase::ProbingTarget;
                RestoreAction::ProbeTarget { path: self.target.clone() }
            },
            (RestorePhase::ProbingTarget, RestoreEvent::TargetProbed { is_dir }) => {
                if is_dir {
                    self.phase = RestorePhase::ResolvingTarget;
                    RestoreAction::ResolveTarget { path: self.target.clone() }
                } else {
                    self.abort(Fatal::TargetNotDirectory)
                }
            },
            (RestorePhase::ResolvingTarget, RestoreEvent::TargetResolved { resolved: path }) => {
                match path {
                    Some(p) => {
                        self.phase = RestorePhase::ProbingSource;
                        self.target = p;
                        RestoreAction::ProbeSource { path: self.source.clone() }
                    },
                    None => self.abort(Fatal::TargetUnresolved),
                }
            },
            (RestorePhase::ProbingSource, RestoreEvent::SourceProbed { is_dir }) => {
                if is_dir {
                    self.phase = RestorePhase::ResolvingSource;
                    RestoreAction::ResolveSource { path: self.source.clone() }
                } else {
                    self.phase = RestorePhase::CreatingSource;
                    RestoreAction::CreateSource { path: self.source.clone() }
                }
            },
            (RestorePhase::CreatingSource, RestoreEvent::SourceCreated { ok }) => {
                if ok {
                    self.phase = RestorePhase::ResolvingSource;
                    RestoreAction::ResolveSource { path: self.source.clone() }
                } else {
                    self.abort(Fatal::SourceNotCreated)
                }
            },
            (RestorePhase::ResolvingSource, RestoreEvent::SourceResolved { resolved: path }) => {
                match path {
                    Some(p) => {
                        self.phase = RestorePhase::Reading;
                        self.source = p;
                        RestoreAction::ReadList
                    },
                    None => self.abort(Fatal::SourceUnresolved),
                }
            },
            (RestorePhase::Reading, RestoreEvent::ListRead { lines }) => {
                match lines {
                    Some(t) => {
                        self.checksums = ChecksumFile::from_file(&t);
                        self.turn_to(0, self.failed)
                    },
                    None => self.abort(Fatal::ListUnreadable),
                }
            },
            _ => self.abort(Fatal::OutOfTurn),
        }
    }

    fn record(&mut self, event: RestoreEvent) -> (action: RestoreAction)
        ensures
            (final(self)@, action) == restore_record_step(old(self)@, event),
    {
        if self.next >= self.checksums.files.len() {
            return self.abort(Fatal::OutOfTurn);
        }
        match (self.phase, event) {
            (RestorePhase::Announcing, RestoreEvent::Noted) => {
                if should_restore(self.policy, true) != should_restore(self.policy, false) {
                    self.phase = RestorePhase::Probing;
                    RestoreAction::ProbeFile { path: self.source_path.clone() }
                } else if should_restore(self.policy, false) {
                    self.write()
                } else {
                    self.skip()
                }
            },
            (RestorePhase::Probing, RestoreEvent::FileProbed { exists }) => {
                if should_restore(self.policy, exists) {
                    self.write()
                } else {
                    self.skip()
                }
            },
            (RestorePhase::Skipping, RestoreEvent::Noted) => self.turn_to(
                self.next + 1,
                self.failed,
            ),
            (RestorePhase::CreatingParent, RestoreEvent::ParentCreated { ok }) => {
                if ok {
                    self.phase = RestorePhase::Copying;
                    RestoreAction::CopyFile {
                        from: self.target_path.clone(),
                        to: self.source_path.clone(),
                    }
                } else {
                    self.turn_to(self.next + 1, true)
                }
            },
            (RestorePhase::Copying, RestoreEvent::Copied { ok }) => self.turn_to(
                self.next + 1,
                self.failed || !ok,
            ),
            _ => self.abort(Fatal::OutOfTurn),
        }
    }
}

/// Takes the restore one step on: `state` becomes the state after `event`,
/// and the result is what is to be done next.
pub fn restore(state: &mut Restore, event: RestoreEvent) -> (action: RestoreAction)
    ensures
        (final(state)@, action) == restore_step(old(state)@, event),
{
    match state.phase {
        RestorePhase::Announcing
        | RestorePhase::Probing
        | RestorePhase::Skipping
        | RestorePhase::CreatingParent
        | RestorePhase::Copying => state.record(event),
        _ => state.setup(event),
    }
}

} // verus!
