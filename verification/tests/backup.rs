use checksum_backup::backup::{backup, Backup, BackupAction, BackupEvent, BackupPhase};
use checksum_backup::check::{check, Check, CheckAction, CheckEvent};
use checksum_backup::fatal::Fatal;
use std::path::PathBuf;

fn path(text: &str) -> PathBuf {
    PathBuf::from(text)
}

/// A backup that has come to its walk, from `/data/source` into `/backup/target`.
fn walking() -> Backup {
    let mut state = Backup::new(path("source"), path("target"));
    assert_eq!(backup(&mut state, BackupEvent::Started), BackupAction::ProbeSource { path: path("source") });
    assert_eq!(
        backup(&mut state, BackupEvent::SourceProbed { is_dir: true }),
        BackupAction::ResolveSource { path: path("source") }
    );
    assert_eq!(
        backup(&mut state, BackupEvent::SourceResolved { resolved: Some(path("/data/source")) }),
        BackupAction::ProbeTarget { path: path("target") }
    );
    assert_eq!(
        backup(&mut state, BackupEvent::TargetProbed { is_dir: false }),
        BackupAction::CreateTarget { path: path("target") }
    );
    assert_eq!(
        backup(&mut state, BackupEvent::TargetCreated { ok: true }),
        BackupAction::ResolveTarget { path: path("target") }
    );
    assert_eq!(
        backup(&mut state, BackupEvent::TargetResolved { resolved: Some(path("/backup/target")) }),
        BackupAction::Walk { root: path("/data/source") }
    );
    assert_eq!(state.phase, BackupPhase::Walking);
    assert!(!state.failed);
    state
}

/// Takes one file through the backup, every step of it succeeding.
fn copy_one(state: &mut Backup, below: &str, digest: &str) {
    let from = path("/data/source").join(below);
    let to = path("/backup/target").join(below);
    assert_eq!(
        backup(state, BackupEvent::EntryFound { path: from.clone(), is_file: true }),
        BackupAction::Digest { path: from.clone() }
    );
    assert_eq!(
        backup(state, BackupEvent::Digested { digest: Some(String::from(digest)) }),
        BackupAction::CreateParent { of: to.clone() }
    );
    assert_eq!(backup(state, BackupEvent::ParentCreated { ok: true }), BackupAction::CopyFile { from, to });
    assert_eq!(backup(state, BackupEvent::Copied { ok: true }), BackupAction::NextEntry);
}

#[test]
fn backup_copies_and_records_each_file() {
    let digest_a = sha256::digest("content of a");
    let digest_b = sha256::digest("content of b");
    assert_eq!(digest_a.len(), 64);
    assert_ne!(digest_a, digest_b);

    let mut state = walking();
    assert_eq!(
        backup(&mut state, BackupEvent::EntryFound { path: path("/data/source"), is_file: false }),
        BackupAction::NextEntry
    );
    copy_one(&mut state, "a.txt", &digest_a);
    assert_eq!(
        backup(&mut state, BackupEvent::EntryFound { path: path("/data/source/sub"), is_file: false }),
        BackupAction::NextEntry
    );
    copy_one(&mut state, "sub/b.txt", &digest_b);
    assert_eq!(backup(&mut state, BackupEvent::WalkEnded), BackupAction::Save);

    assert_eq!(state.checksums.files.len(), 2);
    assert_eq!(state.checksums.files[0].path, "a.txt");
    assert_eq!(state.checksums.files[0].sha256, digest_a);
    assert_eq!(state.checksums.files[1].path, "sub/b.txt");
    assert_eq!(state.checksums.files[1].sha256, digest_b);
    assert_eq!(
        state.checksums.save(),
        format!("SHA256 (a.txt) = {}\nSHA256 (sub/b.txt) = {}\n", digest_a, digest_b)
    );

    assert_eq!(backup(&mut state, BackupEvent::Saved { ok: true }), BackupAction::Finish { success: true });
    assert_eq!(state.phase, BackupPhase::Done);
    assert!(!state.failed);
}

#[test]
fn backup_into_a_target_that_is_there_makes_no_directory() {
    let mut state = Backup::new(path("source"), path("target"));
    backup(&mut state, BackupEvent::Started);
    backup(&mut state, BackupEvent::SourceProbed { is_dir: true });
    backup(&mut state, BackupEvent::SourceResolved { resolved: Some(path("/data/source")) });
    assert_eq!(
        backup(&mut state, BackupEvent::TargetProbed { is_dir: true }),
        BackupAction::ResolveTarget { path: path("target") }
    );
}

#[test]
fn backup_stops_when_the_source_is_no_directory() {
    let mut state = Backup::new(path("source"), path("target"));
    backup(&mut state, BackupEvent::Started);
    assert_eq!(
        backup(&mut state, BackupEvent::SourceProbed { is_dir: false }),
        BackupAction::Abort { reason: Fatal::SourceNotDirectory }
    );
    assert_eq!(state.phase, BackupPhase::Done);
    assert!(state.failed);
}

#[test]
fn backup_stops_when_the_source_has_no_canonical_path() {
    let mut state = Backup::new(path("source"), path("target"));
    backup(&mut state, BackupEvent::Started);
    backup(&mut state, BackupEvent::SourceProbed { is_dir: true });
    assert_eq!(
        backup(&mut state, BackupEvent::SourceResolved { resolved: None }),
        BackupAction::Abort { reason: Fatal::SourceUnresolved }
    );
    assert!(state.failed);
}

#[test]
fn backup_stops_when_the_target_cannot_be_made() {
    let mut state = Backup::new(path("source"), path("target"));
    backup(&mut state, BackupEvent::Started);
    backup(&mut state, BackupEvent::SourceProbed { is_dir: true });
    backup(&mut state, BackupEvent::SourceResolved { resolved: Some(path("/data/source")) });
    backup(&mut state, BackupEvent::TargetProbed { is_dir: false });
    assert_eq!(
        backup(&mut state, BackupEvent::TargetCreated { ok: false }),
        BackupAction::Abort { reason: Fatal::TargetNotCreated }
    );
    assert!(state.failed);
}

#[test]
fn backup_stops_when_the_target_has_no_canonical_path() {
    let mut state = Backup::new(path("source"), path("target"));
    backup(&mut state, BackupEvent::Started);
    backup(&mut state, BackupEvent::SourceProbed { is_dir: true });
    backup(&mut state, BackupEvent::SourceResolved { resolved: Some(path("/data/source")) });
    backup(&mut state, BackupEvent::TargetProbed { is_dir: true });
    assert_eq!(
        backup(&mut state, BackupEvent::TargetResolved { resolved: None }),
        BackupAction::Abort { reason: Fatal::TargetUnresolved }
    );
    assert!(state.failed);
}

#[test]
fn backup_goes_on_after_a_file_that_cannot_be_digested() {
    let mut state = walking();
    assert_eq!(
        backup(&mut state, BackupEvent::EntryFound { path: path("/data/source/locked"), is_file: true }),
        BackupAction::Digest { path: path("/data/source/locked") }
    );
    assert_eq!(backup(&mut state, BackupEvent::Digested { digest: None }), BackupAction::NextEntry);
    assert!(state.failed);
    assert_eq!(state.checksums.files.len(), 0);

    copy_one(&mut state, "a.txt", "aa11");
    assert_eq!(backup(&mut state, BackupEvent::WalkEnded), BackupAction::Save);
    assert_eq!(state.checksums.save(), "SHA256 (a.txt) = aa11\n");
    assert_eq!(backup(&mut state, BackupEvent::Saved { ok: true }), BackupAction::Finish { success: false });
    assert!(state.failed);
}

#[test]
fn backup_records_a_file_whose_directory_cannot_be_made() {
    let mut state = walking();
    backup(&mut state, BackupEvent::EntryFound { path: path("/data/source/sub/b.txt"), is_file: true });
    backup(&mut state, BackupEvent::Digested { digest: Some(String::from("bb22")) });
    assert_eq!(backup(&mut state, BackupEvent::ParentCreated { ok: false }), BackupAction::NextEntry);
    assert!(state.failed);
    assert_eq!(state.checksums.save(), "SHA256 (sub/b.txt) = bb22\n");
    assert_eq!(backup(&mut state, BackupEvent::WalkEnded), BackupAction::Save);
    assert_eq!(backup(&mut state, BackupEvent::Saved { ok: true }), BackupAction::Finish { success: false });
}

#[test]
fn backup_records_a_file_that_cannot_be_copied() {
    let mut state = walking();
    backup(&mut state, BackupEvent::EntryFound { path: path("/data/source/a.txt"), is_file: true });
    backup(&mut state, BackupEvent::Digested { digest: Some(String::from("aa11")) });
    backup(&mut state, BackupEvent::ParentCreated { ok: true });
    assert_eq!(backup(&mut state, BackupEvent::Copied { ok: false }), BackupAction::NextEntry);
    assert!(state.failed);
    assert_eq!(state.checksums.files.len(), 1);
    copy_one(&mut state, "c.txt", "cc33");
    assert!(state.failed);
    assert_eq!(state.checksums.files.len(), 2);
}

#[test]
fn backup_fails_when_the_list_cannot_be_written() {
    let mut state = walking();
    copy_one(&mut state, "a.txt", "aa11");
    backup(&mut state, BackupEvent::WalkEnded);
    assert_eq!(backup(&mut state, BackupEvent::Saved { ok: false }), BackupAction::Finish { success: false });
    assert!(state.failed);
}

#[test]
fn backup_passes_over_what_is_no_file_and_what_cannot_be_read() {
    let mut state = walking();
    assert_eq!(backup(&mut state, BackupEvent::EntryUnreadable), BackupAction::NextEntry);
    assert_eq!(
        backup(&mut state, BackupEvent::EntryFound { path: path("/data/source/sub"), is_file: false }),
        BackupAction::NextEntry
    );
    assert!(!state.failed);
    assert_eq!(backup(&mut state, BackupEvent::WalkEnded), BackupAction::Save);
    assert_eq!(state.checksums.save(), "");
    assert_eq!(backup(&mut state, BackupEvent::Saved { ok: true }), BackupAction::Finish { success: true });
}

#[test]
fn backup_gives_up_a_file_that_is_not_below_the_source() {
    let mut state = walking();
    assert_eq!(
        backup(&mut state, BackupEvent::EntryFound { path: path("/elsewhere/a.txt"), is_file: true }),
        BackupAction::NextEntry
    );
    assert!(state.failed);
    assert_eq!(state.checksums.files.len(), 0);
}

#[test]
fn backup_stops_on_an_event_out_of_turn() {
    let mut state = Backup::new(path("source"), path("target"));
    assert_eq!(
        backup(&mut state, BackupEvent::Copied { ok: true }),
        BackupAction::Abort { reason: Fatal::OutOfTurn }
    );
    assert_eq!(state.phase, BackupPhase::Done);
    assert!(state.failed);

    let mut state = walking();
    assert_eq!(
        backup(&mut state, BackupEvent::Digested { digest: Some(String::from("aa11")) }),
        BackupAction::Abort { reason: Fatal::OutOfTurn }
    );
    assert_eq!(state.checksums.files.len(), 0);
    assert_eq!(backup(&mut state, BackupEvent::Started), BackupAction::Abort { reason: Fatal::OutOfTurn });
    assert_eq!(state.phase, BackupPhase::Done);
}

#[test]
fn a_fresh_backup_verifies_against_its_own_list() {
    let digest_a = sha256::digest("content of a");
    let digest_b = sha256::digest("content of b");
    let mut state = walking();
    copy_one(&mut state, "a.txt", &digest_a);
    copy_one(&mut state, "sub/b.txt", &digest_b);
    backup(&mut state, BackupEvent::WalkEnded);
    let list = state.checksums.save();
    assert_eq!(backup(&mut state, BackupEvent::Saved { ok: true }), BackupAction::Finish { success: true });

    let mut verify = Check::new(path("/backup/target"));
    assert_eq!(check(&mut verify, CheckEvent::Started), CheckAction::ReadList);
    assert_eq!(
        check(&mut verify, CheckEvent::ListRead { lines: Some(list.lines().map(String::from).collect()) }),
        CheckAction::Digest { path: path("/backup/target/a.txt") }
    );
    assert_eq!(
        check(&mut verify, CheckEvent::Digested { digest: Some(sha256::digest("content of a")) }),
        CheckAction::Digest { path: path("/backup/target/sub/b.txt") }
    );
    assert_eq!(
        check(&mut verify, CheckEvent::Digested { digest: Some(sha256::digest("content of b")) }),
        CheckAction::Finish { success: true }
    );
    assert_eq!(verify.error.file_names.len(), 0);
}
