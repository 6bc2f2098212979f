use std::collections::{HashMap, HashSet};

use alloc_perf_test::fs_util::{
    backup_path_of, dir_exists, file_exists, FsUtilError, MetaLookup, StoreAction,
    UpdatableWritableFile, UpdatedOrRolledBack, WriteFailure,
};
use alloc_perf_test::storage_util::{RecordKind, StoredRecord};
use alloc_perf_test::AllocPerfError;

/// A tiny in-memory filesystem for driving the write protocol.
struct SimFs {
    files: HashMap<String, Vec<u8>>,
    dirs: HashSet<String>,
}

impl SimFs {
    fn new() -> Self {
        SimFs { files: HashMap::new(), dirs: HashSet::new() }
    }

    fn meta(&self, path: &str) -> MetaLookup {
        if self.files.contains_key(path) {
            MetaLookup::Found { is_file: true, is_dir: false }
        } else if self.dirs.contains(path) {
            MetaLookup::Found { is_file: false, is_dir: true }
        } else {
            MetaLookup::NotFound
        }
    }

    /// Rename that refuses to overwrite an existing destination, as the
    /// backup step demands.
    fn rename_no_overwrite(&mut self, src: &str, dst: &str) -> Result<(), String> {
        if self.files.contains_key(dst) {
            return Err(String::from("destination exists"));
        }
        match self.files.remove(src) {
            Some(content) => {
                self.files.insert(dst.to_string(), content);
                Ok(())
            }
            None => Err(String::from("source missing")),
        }
    }

    /// Atomic rename that replaces the destination, as rollback relies on.
    fn rename_overwrite(&mut self, src: &str, dst: &str) -> Result<(), String> {
        match self.files.remove(src) {
            Some(content) => {
                self.files.insert(dst.to_string(), content);
                Ok(())
            }
            None => Err(String::from("source missing")),
        }
    }

    fn create_new(&mut self, path: &str) -> Result<(), String> {
        if self.files.contains_key(path) {
            return Err(String::from("already exists"));
        }
        self.files.insert(path.to_string(), Vec::new());
        Ok(())
    }

    fn remove(&mut self, path: &str) -> Result<(), String> {
        match self.files.remove(path) {
            Some(_) => Ok(()),
            None => Err(String::from("no such file")),
        }
    }
}

#[derive(Clone, Copy, PartialEq)]
enum Fault {
    Clean,
    Write,
    WriteThenRollback,
    WriteThenRemove,
}

/// Run one durable write against the simulated filesystem, recording the
/// actions the machine asked for.
fn drive(
    fs: &mut SimFs,
    path: &str,
    binz: Vec<u8>,
    fault: Fault,
) -> (Result<UpdatedOrRolledBack, AllocPerfError>, Vec<StoreAction>) {
    let mut m = UpdatableWritableFile::update_or_create(path.to_string(), binz);
    let backup = backup_path_of(path);
    let mut actions = Vec::new();
    loop {
        let action = m.next_action();
        actions.push(action);
        match action {
            StoreAction::CheckFileExists => {
                let meta = fs.meta(path);
                m.on_exists(meta);
            }
            StoreAction::RenameToBackup => {
                let r = fs.rename_no_overwrite(path, &backup);
                m.on_backup_renamed(r);
            }
            StoreAction::CreateExclusive => {
                let r = fs.create_new(path);
                m.on_created(r);
            }
            StoreAction::WriteAndFlush => {
                if fault == Fault::Clean {
                    let bytes = m.bytes_to_write().clone();
                    fs.files.insert(path.to_string(), bytes);
                    m.on_written(Ok(()));
                } else {
                    fs.files.insert(path.to_string(), b"partial junk".to_vec());
                    m.on_written(Err(WriteFailure::Write(String::from("injected fault"))));
                }
            }
            StoreAction::RenameBackupToPath => {
                let r = if fault == Fault::WriteThenRollback {
                    Err(String::from("injected rollback fault"))
                } else {
                    fs.rename_overwrite(&backup, path)
                };
                m.on_rolled_back(r);
            }
            StoreAction::RemovePartial => {
                let r = if fault == Fault::WriteThenRemove {
                    Err(String::from("injected remove fault"))
                } else {
                    fs.remove(path)
                };
                m.on_removed(r);
            }
            StoreAction::Done => {
                return (m.outcome(), actions);
            }
        }
    }
}

fn blob_of(rec: &StoredRecord) -> Vec<u8> {
    let (_, binz) = rec.clone().with_binz().unwrap();
    binz
}

#[test]
fn fresh_write_stores_record_and_creates_namespace() {
    // the concrete scenario: record {id: 1, name: "x"} stored at "5/ALL"
    // where namespace 5 did not previously exist
    let mut fs = SimFs::new();
    let sub = alloc_perf_test::conf::SubFull {
        idx: 5,
        domain: String::from("https://example.com"),
        username: String::from("u"),
        password: String::from("p"),
    };
    let dir = sub.mk_sub_dir_path();
    assert_eq!(dir, "5");
    // ensure the namespace directory: absent, so it is created
    assert_eq!(dir_exists(&dir, fs.meta(&dir)).unwrap(), false);
    fs.dirs.insert(dir.clone());
    assert_eq!(dir_exists(&dir, fs.meta(&dir)).unwrap(), true);

    let path = RecordKind::AllInfo.get_path(&sub);
    assert_eq!(path, "5/ALL");
    let rec = StoredRecord { id: 1, name: String::from("x") };
    let binz = blob_of(&rec);
    let (outcome, actions) = drive(&mut fs, &path, binz.clone(), Fault::Clean);

    assert!(matches!(outcome, Ok(UpdatedOrRolledBack::Updated)));
    assert_eq!(
        actions,
        vec![
            StoreAction::CheckFileExists,
            StoreAction::CreateExclusive,
            StoreAction::WriteAndFlush,
            StoreAction::Done,
        ]
    );
    assert_eq!(fs.files.get("5/ALL"), Some(&binz));
    assert!(!fs.files.contains_key("5/ALL.backup"));
    let back = StoredRecord::from_binz(fs.files.get("5/ALL").unwrap().clone()).unwrap();
    assert_eq!(back.id, 1);
    assert_eq!(back.name, "x");
}

#[test]
fn update_keeps_backup_as_last_good_copy() {
    let mut fs = SimFs::new();
    let old = StoredRecord { id: 1, name: String::from("old") };
    let new = StoredRecord { id: 2, name: String::from("new") };
    let old_blob = blob_of(&old);
    let new_blob = blob_of(&new);
    fs.files.insert("7/ALL".to_string(), old_blob.clone());

    let (outcome, actions) = drive(&mut fs, "7/ALL", new_blob.clone(), Fault::Clean);

    assert!(matches!(outcome, Ok(UpdatedOrRolledBack::Updated)));
    assert_eq!(
        actions,
        vec![
            StoreAction::CheckFileExists,
            StoreAction::RenameToBackup,
            StoreAction::CreateExclusive,
            StoreAction::WriteAndFlush,
            StoreAction::Done,
        ]
    );
    assert_eq!(fs.files.get("7/ALL"), Some(&new_blob));
    assert_eq!(fs.files.get("7/ALL.backup"), Some(&old_blob));
}

#[test]
fn failed_update_rolls_back_to_prior_content() {
    // rollback invariant: after a failed write over an existing file, the
    // prior content is back at the path and no backup file remains
    let mut fs = SimFs::new();
    let old = StoredRecord { id: 11, name: String::from("keep me") };
    let old_blob = blob_of(&old);
    fs.files.insert("3/ALL".to_string(), old_blob.clone());
    let new_blob = blob_of(&StoredRecord { id: 12, name: String::from("lost") });

    let (outcome, _) = drive(&mut fs, "3/ALL", new_blob, Fault::Write);

    match outcome {
        Ok(UpdatedOrRolledBack::RolledBack { write_error }) => {
            assert!(matches!(
                write_error,
                AllocPerfError::FsUtil(FsUtilError::NewWritableFileWriteFailed { .. })
            ));
        }
        other => panic!("expected a rollback, got {other:?}"),
    }
    assert_eq!(fs.files.get("3/ALL"), Some(&old_blob));
    assert!(!fs.files.contains_key("3/ALL.backup"));
    let back = StoredRecord::from_binz(fs.files.get("3/ALL").unwrap().clone()).unwrap();
    assert_eq!(back.id, 11);
    assert_eq!(back.name, "keep me");
}

#[test]
fn failed_fresh_write_leaves_no_file() {
    // fresh-write invariant: a failed write to a path with no existing file
    // leaves no file behind
    let mut fs = SimFs::new();
    let blob = blob_of(&StoredRecord { id: 9, name: String::from("gone") });

    let (outcome, actions) = drive(&mut fs, "9/ALL", blob, Fault::Write);

    assert!(outcome.is_err());
    assert!(actions.contains(&StoreAction::RemovePartial));
    assert!(!fs.files.contains_key("9/ALL"));
    assert!(!fs.files.contains_key("9/ALL.backup"));
}

#[test]
fn rollback_failure_preserves_both_errors() {
    let mut fs = SimFs::new();
    fs.files.insert("4/ALL".to_string(), b"previous".to_vec());
    let blob = blob_of(&StoredRecord { id: 1, name: String::from("n") });

    let (outcome, _) = drive(&mut fs, "4/ALL", blob, Fault::WriteThenRollback);

    match outcome {
        Err(AllocPerfError::FsUtil(FsUtilError::RollbackRenameFailed {
            write_error,
            rename_error,
        })) => {
            assert!(matches!(*write_error, FsUtilError::NewWritableFileWriteFailed { .. }));
            assert!(matches!(*rename_error, FsUtilError::RenameFailed { .. }));
        }
        other => panic!("expected the double failure, got {other:?}"),
    }
}

#[test]
fn stale_backup_makes_the_rename_fail() {
    let mut fs = SimFs::new();
    fs.files.insert("2/ALL".to_string(), b"current".to_vec());
    fs.files.insert("2/ALL.backup".to_string(), b"stale".to_vec());
    let blob = blob_of(&StoredRecord { id: 1, name: String::from("n") });

    let (outcome, _) = drive(&mut fs, "2/ALL", blob, Fault::Clean);

    assert!(matches!(
        outcome,
        Err(AllocPerfError::FsUtil(FsUtilError::RenameFailed { .. }))
    ));
    // the stale backup was not silently overwritten
    assert_eq!(fs.files.get("2/ALL.backup"), Some(&b"stale".to_vec()));
}

#[test]
fn directory_at_target_path_is_an_error() {
    let mut fs = SimFs::new();
    fs.dirs.insert("6/ALL".to_string());
    let blob = blob_of(&StoredRecord { id: 1, name: String::from("n") });

    let (outcome, _) = drive(&mut fs, "6/ALL", blob, Fault::Clean);

    assert!(matches!(
        outcome,
        Err(AllocPerfError::FsUtil(FsUtilError::ExistsButNotFile(_)))
    ));
}

#[test]
fn file_exists_classifies_every_lookup() {
    assert_eq!(
        file_exists("p", MetaLookup::Found { is_file: true, is_dir: false }).unwrap(),
        true
    );
    assert_eq!(file_exists("p", MetaLookup::NotFound).unwrap(), false);
    assert!(matches!(
        file_exists("p", MetaLookup::Found { is_file: false, is_dir: true }),
        Err(FsUtilError::ExistsButNotFile(_))
    ));
    assert!(matches!(
        file_exists("p", MetaLookup::LookupFailed { message: String::from("denied") }),
        Err(FsUtilError::UnexpectedErrorGettingMetaInfo { .. })
    ));
}

#[test]
fn dir_exists_classifies_every_lookup() {
    assert_eq!(
        dir_exists("d", MetaLookup::Found { is_file: false, is_dir: true }).unwrap(),
        true
    );
    assert_eq!(dir_exists("d", MetaLookup::NotFound).unwrap(), false);
    assert!(matches!(
        dir_exists("d", MetaLookup::Found { is_file: true, is_dir: false }),
        Err(FsUtilError::ExistsButNotDir(_))
    ));
    assert!(matches!(
        dir_exists("d", MetaLookup::LookupFailed { message: String::from("denied") }),
        Err(FsUtilError::UnexpectedErrorGettingMetaInfo { .. })
    ));
}

#[test]
fn backup_path_appends_the_fixed_suffix() {
    assert_eq!(backup_path_of("5/ALL"), "5/ALL.backup");
    assert_eq!(backup_path_of(""), ".backup");
}

#[test]
fn cleanup_failure_preserves_both_errors() {
    let mut fs = SimFs::new();
    let blob = blob_of(&StoredRecord { id: 8, name: String::from("n") });

    let (outcome, _) = drive(&mut fs, "8/ALL", blob, Fault::WriteThenRemove);

    match outcome {
        Err(AllocPerfError::FsUtil(FsUtilError::CleanupRemoveFailed {
            write_error,
            remove_error,
        })) => {
            assert!(matches!(*write_error, FsUtilError::NewWritableFileWriteFailed { .. }));
            assert_eq!(remove_error, "injected remove fault");
        }
        other => panic!("expected the cleanup double failure, got {other:?}"),
    }
}

#[test]
fn metadata_failure_aborts_before_any_write() {
    let blob = blob_of(&StoredRecord { id: 8, name: String::from("n") });
    let mut m = UpdatableWritableFile::update_or_create("x/ALL".to_string(), blob);
    assert_eq!(m.next_action(), StoreAction::CheckFileExists);
    m.on_exists(MetaLookup::LookupFailed { message: String::from("io broke") });
    assert_eq!(m.next_action(), StoreAction::Done);
    assert!(matches!(
        m.outcome(),
        Err(AllocPerfError::FsUtil(FsUtilError::UnexpectedErrorGettingMetaInfo { .. }))
    ));
}
