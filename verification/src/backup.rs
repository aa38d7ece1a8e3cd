//! The backup: every file below the source is digested, recorded and copied
//! to the same place below the target; then the checksum list is written.
//!
//! The operation is a machine. `backup` takes the state and what came of the
//! last action, and gives the next action; whoever runs it reads and writes
//! the file system as the actions say.

use vstd::prelude::*;
use std::path::PathBuf;
use crate::checksum_file::ChecksumFile;
use crate::fatal::Fatal;
use crate::paths::join;
use crate::paths::path_below;
use crate::paths::path_joined;
use crate::paths::path_text;
use crate::paths::strip_prefix;
use crate::paths::to_text;
use crate::record_text::Record;

verus! {

/// What the backup waits for.
#[derive(Debug, Clone, Copy, PartialEq, Eq, Structural)]
pub enum BackupPhase {
    Created,
    ProbingSource,
    ResolvingSource,
    ProbingTarget,
    CreatingTarget,
    ResolvingTarget,
    Walking,
    Digesting,
    CreatingParent,
    Copying,
    Saving,
    Done,
}

/// What came of an action.
#[derive(Debug, PartialEq, Eq)]
pub enum BackupEvent {
    /// The operation begins.
    Started,
    /// Whether the source is a directory.
    SourceProbed { is_dir: bool },
    /// The canonical path of the source, if it has one.
    SourceResolved { resolved: Option<PathBuf> },
    /// Whether the target is a directory.
    TargetProbed { is_dir: bool },
    /// Whether the target directory, with what lies above it, was made.
    TargetCreated { ok: bool },
    /// The canonical path of the target, if it has one.
    TargetResolved { resolved: Option<PathBuf> },
    /// The walk came to an entry, which is a file or not.
    EntryFound { path: PathBuf, is_file: bool },
    /// The walk came to an entry that it could not read.
    EntryUnreadable,
    /// The walk has no more entries.
    WalkEnded,
    /// The digest of the file in hand, if the file could be read.
    Digested { digest: Option<String> },
    /// Whether the directories above the copy were made.
    ParentCreated { ok: bool },
    /// Whether the file was copied.
    Copied { ok: bool },
    /// Whether the checksum list was written.
    Saved { ok: bool },
}

/// What is to be done next.
#[derive(Debug, PartialEq, Eq)]
pub enum BackupAction {
    /// Find out whether the source is a directory.
    ProbeSource { path: PathBuf },
    /// Find the canonical path of the source.
    ResolveSource { path: PathBuf },
    /// Find out whether the target is a directory.
    ProbeTarget { path: PathBuf },
    /// Make the target directory and what lies above it.
    CreateTarget { path: PathBuf },
    /// Find the canonical path of the target.
    ResolveTarget { path: PathBuf },
    /// Walk through all that lies below `root`, and give the first entry.
    Walk { root: PathBuf },
    /// Give the next entry of the walk.
    NextEntry,
    /// Digest the content of the file.
    Digest { path: PathBuf },
    /// Make the directories above `of`.
    CreateParent { of: PathBuf },
    /// Copy the content of `from` to `to`, over what is there.
    CopyFile { from: PathBuf, to: PathBuf },
    /// Write the checksum list of the state to the checksum file.
    Save,
    /// Stop: nothing more can be done.
    Abort { reason: Fatal },
    /// The backup is over, and has succeeded or not.
    Finish { success: bool },
}

/// The state of a backup.
pub struct Backup {
    pub phase: BackupPhase,
    /// The directory that is backed up.
    pub source: PathBuf,
    /// The directory that takes the copies.
    pub target: PathBuf,
    /// The file in hand.
    pub entry: PathBuf,
    /// The path of the file in hand below the source.
    pub below: PathBuf,
    /// Where the file in hand is copied to.
    pub destination: PathBuf,
    /// The records of the files digested so far.
    pub checksums: ChecksumFile,
    /// Whether anything has gone wrong so far.
    pub failed: bool,
}

/// The state of a backup as contracts see it.
pub struct BackupView {
    pub phase: BackupPhase,
    pub source: PathBuf,
    pub target: PathBuf,
    pub entry: PathBuf,
    pub below: PathBuf,
    pub destination: PathBuf,
    pub records: Seq<Record>,
    pub failed: bool,
}

impl View for Backup {
    type V = BackupView;

    open spec fn view(&self) -> BackupView {
        BackupView {
            phase: self.phase,
            source: self.source,
            target: self.target,
            entry: self.entry,
            below: self.below,
            destination: self.destination,
            records: self.checksums@,
            failed: self.failed,
        }
    }
}

/// The operation stops and has failed.
pub open spec fn backup_aborted(s: BackupView, reason: Fatal) -> (BackupView, BackupAction) {
    (BackupView { phase: BackupPhase::Done, failed: true, ..s }, BackupAction::Abort { reason })
}

/// The file in hand is given up, or done: the walk goes on.
pub open spec fn backup_walks_on(s: BackupView, failed: bool) -> (BackupView, BackupAction) {
    (BackupView { phase: BackupPhase::Walking, failed, ..s }, BackupAction::NextEntry)
}

/// The step of the backup before the walk: the source must be a directory
/// with a canonical path; the target is made if it is no directory, and
/// must then have a canonical path too.
pub open spec fn backup_setup_step(s: BackupView, e: BackupEvent) -> (BackupView, BackupAction) {
    match (s.phase, e) {
        (BackupPhase::Created, BackupEvent::Started) => (
            BackupView { phase: BackupPhase::ProbingSource, ..s },
            BackupAction::ProbeSource { path: s.source },
        ),
        (BackupPhase::ProbingSource, BackupEvent::SourceProbed { is_dir }) => if is_dir {
            (
                BackupView { phase: BackupPhase::ResolvingSource, ..s },
                BackupAction::ResolveSource { path: s.source },
            )
        } else {
            backup_aborted(s, Fatal::SourceNotDirectory)
        },
        (BackupPhase::ResolvingSource, BackupEvent::SourceResolved { resolved: path }) => match path {
            Some(p) => (
                BackupView { phase: BackupPhase::ProbingTarget, source: p, ..s },
                BackupAction::ProbeTarget { path: s.target },
            ),
            None => backup_aborted(s, Fatal::SourceUnresolved),
        },
        (BackupPhase::ProbingTarget, BackupEvent::TargetProbed { is_dir }) => if is_dir {
            (
                BackupView { phase: BackupPhase::ResolvingTarget, ..s },
                BackupAction::ResolveTarget { path: s.target },
            )
        } else {
            (
                BackupView { phase: BackupPhase::CreatingTarget, ..s },
                BackupAction::CreateTarget { path: s.target },
            )
        },
        (BackupPhase::CreatingTarget, BackupEvent::TargetCreated { ok }) => if ok {
            (
                BackupView { phase: BackupPhase::ResolvingTarget, ..s },
                BackupAction::ResolveTarget { path: s.target },
            )
        } else {
            backup_aborted(s, Fatal::TargetNotCreated)
        },
        (BackupPhase::ResolvingTarget, BackupEvent::TargetResolved { resolved: path }) => match path {
            Some(p) => (
                BackupView { phase: BackupPhase::Walking, target: p, ..s },
                BackupAction::Walk { root: s.source },
            ),
            None => backup_aborted(s, Fatal::TargetUnresolved),
        },
        _ => backup_aborted(s, Fatal::OutOfTurn),
    }
}

/// The step of the backup from the walk on. A file is digested; if that
/// succeeds it is recorded, under its path below the source, and then copied
/// to that path below the target. Whatever fails for one file marks the
/// backup as failed, and the walk goes on. When the walk has ended the list
/// is written, and the backup has succeeded if nothing has failed.
pub open spec fn backup_walk_step(s: BackupView, e: BackupEvent) -> (BackupView, BackupAction) {
    match (s.phase, e) {
        (BackupPhase::Walking, BackupEvent::EntryFound { path, is_file }) => if !is_file {
            backup_walks_on(s, s.failed)
        } else {
            match path_below(path, s.source) {
                Some(below) => (
                    BackupView { phase: BackupPhase::Digesting, entry: path, below, ..s },
                    BackupAction::Digest { path },
                ),
                None => backup_walks_on(s, true),
            }
        },
        (BackupPhase::Walking, BackupEvent::EntryUnreadable) => backup_walks_on(s, s.failed),
        (BackupPhase::Walking, BackupEvent::WalkEnded) => (
            BackupView { phase: BackupPhase::Saving, ..s },
            BackupAction::Save,
        ),
        (BackupPhase::Digesting, BackupEvent::Digested { digest }) => match digest {
            Some(d) => {
                let destination = path_joined(s.target, s.below);
                (
                    BackupView {
                        phase: BackupPhase::CreatingParent,
                        destination,
                        records: s.records.push(Record { path: path_text(s.below), digest: d@ }),
                        ..s
                    },
                    BackupAction::CreateParent { of: destination },
                )
            },
            None => backup_walks_on(s, true),
        },
        (BackupPhase::CreatingParent, BackupEvent::ParentCreated { ok }) => if ok {
            (
                BackupView { phase: BackupPhase::Copying, ..s },
                BackupAction::CopyFile { from: s.entry, to: s.destination },
            )
        } else {
            backup_walks_on(s, true)
        },
        (BackupPhase::Copying, BackupEvent::Copied { ok }) => backup_walks_on(s, s.failed || !ok),
        (BackupPhase::Saving, BackupEvent::Saved { ok }) => (
            BackupView { phase: BackupPhase::Done, failed: s.failed || !ok, ..s },
            BackupAction::Finish { success: !s.failed && ok },
        ),
        _ => backup_aborted(s, Fatal::OutOfTurn),
    }
}

/// Whether the backup is before its walk.
pub open spec fn in_setup(phase: BackupPhase) -> bool {
    phase == BackupPhase::Created || phase == BackupPhase::ProbingSource || phase
        == BackupPhase::ResolvingSource || phase == BackupPhase::ProbingTarget || phase
        == BackupPhase::CreatingTarget || phase == BackupPhase::ResolvingTarget
}

/// One step of the backup: the state after the event, and the next action.
/// An event that does not answer the last action stops the backup, and so
/// does any event once the backup is done.
pub open spec fn backup_step(s: BackupView, e: BackupEvent) -> (BackupView, BackupAction) {
    if in_setup(s.phase) {
        backup_setup_step(s, e)
    } else {
        backup_walk_step(s, e)
    }
}

/// The state after a run of events, each step taken from the state that the
/// step before has left.
pub open spec fn backup_run(s: BackupView, events: Seq<BackupEvent>) -> BackupView
    decreases events.len(),
{
    if events.len() == 0 {
        s
    } else {
        backup_step(backup_run(s, events.drop_last()), events.last()).0
    }
}

/// A failure is not forgotten: once the backup is marked as failed, it stays
/// so after every event.
pub proof fn lemma_backup_failure_stays(s: BackupView, e: BackupEvent)
    requires
        s.failed,
    ensures
        backup_step(s, e).0.failed,
{
}

/// The backup reports success exactly when the list was written and nothing
/// had failed before, and what it reports is what the state says.
pub proof fn lemma_backup_success(s: BackupView, e: BackupEvent)
    ensures
        e matches BackupEvent::Saved { ok } ==> (s.phase == BackupPhase::Saving ==> backup_step(
            s,
            e,
        ).1 == (BackupAction::Finish { success: !s.failed && ok })),
        backup_step(s, e).1 matches BackupAction::Finish { success } ==> {
            &&& success == !backup_step(s, e).0.failed
            &&& success ==> !s.failed && s.phase == BackupPhase::Saving && e == (
            BackupEvent::Saved { ok: true })
        },
{
}

/// The list grows by the file that was digested, and in no other way: a
/// step leaves the records as they are, or, where the file in hand was
/// digested, adds its path below the source with that digest at the end.
pub proof fn lemma_backup_records(s: BackupView, e: BackupEvent)
    ensures
        match e {
            BackupEvent::Digested { digest: Some(d) } if s.phase == BackupPhase::Digesting => {
                backup_step(s, e).0.records == s.records.push(
                    Record { path: path_text(s.below), digest: d@ },
                )
            },
            _ => backup_step(s, e).0.records == s.records,
        },
{
}

/// Once the backup is done it stays done, whatever comes.
pub proof fn lemma_backup_done_stays(s: BackupView, e: BackupEvent)
    requires
        s.phase == BackupPhase::Done,
    ensures
        backup_step(s, e).0.phase == BackupPhase::Done,
        backup_step(s, e).1 == (BackupAction::Abort { reason: Fatal::OutOfTurn }),
{
}

/// Over a whole run a failure is not forgotten, and no record is taken back
/// or changed: the records before the run are the first records after it.
pub proof fn lemma_backup_run(s: BackupView, events: Seq<BackupEvent>)
    ensures
        s.failed ==> backup_run(s, events).failed,
        s.records.len() <= backup_run(s, events).records.len(),
        backup_run(s, events).records.subrange(0, s.records.len() as int) == s.records,
    decreases events.len(),
{
    if events.len() == 0 {
        assert(s.records.subrange(0, s.records.len() as int) =~= s.records);
    } else {
        let before = backup_run(s, events.drop_last());
        lemma_backup_run(s, events.drop_last());
        lemma_backup_records(before, events.last());
        let after = backup_step(before, events.last()).0;
        assert(after.records.subrange(0, s.records.len() as int) =~= before.records.subrange(
            0,
            s.records.len() as int,
        ));
    }
}

impl Backup {
    /// A backup of `source` into `target` that has not begun.
    pub fn new(source: PathBuf, target: PathBuf) -> (state: Self)
        ensures
            state@.phase == BackupPhase::Created,
            state@.source == source,
            state@.target == target,
            state@.records == Seq::<Record>::empty(),
            state@.entry == source,
            state@.below == source,
            state@.destination == target,
            !state@.failed,
    {
        Backup {
            phase: BackupPhase::Created,
            entry: source.clone(),
            below: source.clone(),
            destination: target.clone(),
            source,
            target,
            checksums: ChecksumFile::new(),
            failed: false,
        }
    }

    fn abort(&mut self, reason: Fatal) -> (action: BackupAction)
        ensures
            (final(self)@, action) == backup_aborted(old(self)@, reason),
    {
        self.phase = BackupPhase::Done;
        self.failed = true;
        BackupAction::Abort { reason }
    }

    fn walk_on(&mut self, failed: bool) -> (action: BackupAction)
        ensures
            (final(self)@, action) == backup_walks_on(old(self)@, failed),
    {
        self.phase = BackupPhase::Walking;
        self.failed = failed;
        BackupAction::NextEntry
    }

    fn setup(&mut self, event: BackupEvent) -> (action: BackupAction)
        ensures
            (final(self)@, action) == backup_setup_step(old(self)@, event),
    {
        match (self.phase, event) {
            (BackupPhase::Created, BackupEvent::Started) => {
                self.phase = BackupPhase::ProbingSource;
                BackupAction::ProbeSource { path: self.source.clone() }
            },
            (BackupPhase::ProbingSource, BackupEvent::SourceProbed { is_dir }) => {
                if is_dir {
                    self.phase = BackupPhase::ResolvingSource;
                    BackupAction::ResolveSource { path: self.source.clone() }
                } else {
                    self.abort(Fatal::SourceNotDirectory)
                }
            },
            (BackupPhase::ResolvingSource, BackupEvent::SourceResolved { resolved: path }) => {
                match path {
                    Some(p) => {
                        self.phase = BackupPhase::ProbingTarget;
                        self.source = p;
                        BackupAction::ProbeTarget { path: self.target.clone() }
                    },
                    None => self.abort(Fatal::SourceUnresolved),
                }
            },
            (BackupPhase::ProbingTarget, BackupEvent::TargetProbed { is_dir }) => {
                if is_dir {
                    self.phase = BackupPhase::ResolvingTarget;
                    BackupAction::ResolveTarget { path: self.target.clone() }
                } else {
                    self.phase = BackupPhase::CreatingTarget;
                    BackupAction::CreateTarget { path: self.target.clone() }
                }
            },
            (BackupPhase::CreatingTarget, BackupEvent::TargetCreated { ok }) => {
                if ok {
                    self.phase = BackupPhase::ResolvingTarget;
                    BackupAction::ResolveTarget { path: self.target.clone() }
                } else {
                    self.abort(Fatal::TargetNotCreated)
                }
            },
            (BackupPhase::ResolvingTarget, BackupEvent::TargetResolved { resolved: path }) => {
                match path {
                    Some(p) => {
                        self.phase = BackupPhase::Walking;
                        self.target = p;
                        BackupAction::Walk { root: self.source.clone() }
                    },
                    None => self.abort(Fatal::TargetUnresolved),
                }
            },
            _ => self.abort(Fatal::OutOfTurn),
        }
    }

    fn walk(&mut self, event: BackupEvent) -> (action: BackupAction)
        ensures
            (final(self)@, action) == backup_walk_step(old(self)@, event),
    {
        match (self.phase, event) {
            (BackupPhase::Walking, BackupEvent::EntryFound { path, is_file }) => {
                if !is_file {
                    self.walk_on(self.failed)
                } else {
                    match strip_prefix(&path, &self.source) {
                        Some(below) => {
                            self.phase = BackupPhase::Digesting;
                            self.entry = path.clone();
                            self.below = below;
                            BackupAction::Digest { path }
                        },
                        None => self.walk_on(true),
                    }
                }
            },
            (BackupPhase::Walking, BackupEvent::EntryUnreadable) => self.walk_on(self.failed),
            (BackupPhase::Walking, BackupEvent::WalkEnded) => {
                self.phase = BackupPhase::Saving;
                BackupAction::Save
            },
            (BackupPhase::Digesting, BackupEvent::Digested { digest }) => {
                match digest {
                    Some(d) => {
                        let name = to_text(&self.below);
                        self.checksums.add(name.as_str(), d.as_str());
                        self.destination = join(&self.target, &self.below);
                        self.phase = BackupPhase::CreatingParent;
                        BackupAction::CreateParent { of: self.destination.clone() }
                    },
                    None => self.walk_on(true),
                }
            },
            (BackupPhase::CreatingParent, BackupEvent::ParentCreated { ok }) => {
                if ok {
                    self.phase = BackupPhase::Copying;
                    BackupAction::CopyFile {
                        from: self.entry.clone(),
                        to: self.destination.clone(),
                    }
                } else {
                    self.walk_on(true)
                }
            },
            (BackupPhase::Copying, BackupEvent::Copied { ok }) => self.walk_on(self.failed || !ok),
            (BackupPhase::Saving, BackupEvent::Saved { ok }) => {
                let success = !self.failed && ok;
                self.phase = BackupPhase::Done;
                self.failed = !success;
                BackupAction::Finish { success }
            },
            _ => self.abort(Fatal::OutOfTurn),
        }
    }
}

/// Takes the backup one step on: `state` becomes the state after `event`,
/// and the result is what is to be done next.
pub fn backup(state: &mut Backup, event: BackupEvent) -> (action: BackupAction)
    ensures
        (final(state)@, action) == backup_step(old(state)@, event),
{
    match state.phase {
        BackupPhase::Created
        | BackupPhase::ProbingSource
        | BackupPhase::ResolvingSource
        | BackupPhase::ProbingTarget
        | BackupPhase::CreatingTarget
        | BackupPhase::ResolvingTarget => state.setup(event),
        _ => state.walk(event),
    }
}

} // verus!
