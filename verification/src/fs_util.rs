use vstd::prelude::*;

verus! {

/// The outcome of fetching metadata for a path, as reported by the
/// (unverified) driver that performs the actual filesystem call.
#[derive(Debug)]
pub enum MetaLookup {
    /// The path exists; the flags say what kind of entry it is.
    Found { is_file: bool, is_dir: bool },
    /// The path does not exist.
    NotFound,
    /// The metadata fetch itself failed for some other reason.
    LookupFailed { message: String },
}

/// Filesystem-layer errors. Paths and underlying causes are carried as
/// plain strings supplied by the driver that performed the operation.
#[derive(Debug)]
pub enum FsUtilError {
    ExistsButNotFile(String),
    ExistsButNotDir(String),
    UnexpectedErrorGettingMetaInfo { path: String, source: String },
    NewDirCreationFailed { path: String, source: String },
    RenameFailed { src_path: String, dst_path: String, source: String },
    NewWritableFileCreationFailed { path: String, source: String },
    NewWritableFileWriteFailed { path: String, source: String },
    NewWritableFileFlushFailed { path: String, source: String },
    ExistentReadableFileOpenFailed { path: String, not_found: bool, source: String },
    ExistentReadableFileReadFailed { path: String, source: String },
    /// A rollback rename failed after a failed write: both errors are kept.
    RollbackRenameFailed { write_error: Box<FsUtilError>, rename_error: Box<FsUtilError> },
    /// Removing a partially written fresh file failed: both errors are kept.
    CleanupRemoveFailed { write_error: Box<FsUtilError>, remove_error: String },
}

/// Tri-state file existence: `Ok(true)` for a file, `Ok(false)` for a missing
/// path, and an error both when the path exists but is not a file and when the
/// metadata fetch itself failed.
pub fn file_exists(path: &str, meta: MetaLookup) -> (r: Result<bool, FsUtilError>)
    ensures
        meta matches MetaLookup::Found { is_file: true, .. } ==> r == Ok::<bool, FsUtilError>(
            true,
        ),
        meta matches MetaLookup::NotFound ==> r == Ok::<bool, FsUtilError>(false),
        meta matches MetaLookup::Found { is_file: false, .. } ==> r matches Err(
            FsUtilError::ExistsButNotFile(p),
        ) && p@ == path@,
        meta matches MetaLookup::LookupFailed { message } ==> r matches Err(
            FsUtilError::UnexpectedErrorGettingMetaInfo { path: p, source },
        ) && p@ == path@ && source@ == message@,
{
    match meta {
        MetaLookup::Found { is_file: true, .. } => Ok(true),
        MetaLookup::Found { is_file: false, .. } => Err(
            FsUtilError::ExistsButNotFile(path.to_owned()),
        ),
        MetaLookup::NotFound => Ok(false),
        MetaLookup::LookupFailed { message } => Err(
            FsUtilError::UnexpectedErrorGettingMetaInfo { path: path.to_owned(), source: message },
        ),
    }
}

/// Tri-state directory existence, the mirror image of `file_exists`.
pub fn dir_exists(path: &str, meta: MetaLookup) -> (r: Result<bool, FsUtilError>)
    ensures
        meta matches MetaLookup::Found { is_dir: true, .. } ==> r == Ok::<bool, FsUtilError>(
            true,
        ),
        meta matches MetaLookup::NotFound ==> r == Ok::<bool, FsUtilError>(false),
        meta matches MetaLookup::Found { is_dir: false, .. } ==> r matches Err(
            FsUtilError::ExistsButNotDir(p),
        ) && p@ == path@,
        meta matches MetaLookup::LookupFailed { message } ==> r matches Err(
            FsUtilError::UnexpectedErrorGettingMetaInfo { path: p, source },
        ) && p@ == path@ && source@ == message@,
{
    match meta {
        MetaLookup::Found { is_dir: true, .. } => Ok(true),
        MetaLookup::Found { is_dir: false, .. } => Err(
            FsUtilError::ExistsButNotDir(path.to_owned()),
        ),
        MetaLookup::NotFound => Ok(false),
        MetaLookup::LookupFailed { message } => Err(
            FsUtilError::UnexpectedErrorGettingMetaInfo { path: path.to_owned(), source: message },
        ),
    }
}

/// The backup path for a file: the path itself with the fixed backup
/// suffix appended.
pub fn backup_path_of(path: &str) -> (r: String)
    ensures
        r@ == path@ + ".backup"@,
{
    let mut r = path.to_owned();
    r.append(".backup");
    r
}

/// The result of a completed durable write.
#[derive(Debug)]
pub enum UpdatedOrRolledBack {
    /// The new blob is in place; if a previous version existed, its backup
    /// is left beside it as the last good copy.
    Updated,
    /// The write failed and the previous version was restored; the original
    /// write error is carried as context.
    RolledBack { write_error: crate::AllocPerfError },
}

/// How a write-and-flush action failed: during the write itself, or while
/// flushing the written bytes.
#[derive(Debug)]
pub enum WriteFailure {
    Write(String),
    Flush(String),
}

/// Where a durable write currently stands.
#[derive(Clone, Copy, Debug, PartialEq, Eq, Structural)]
pub enum StorePhase {
    /// Waiting for the existence check of the target path.
    CheckingExists,
    /// Waiting for the rename of the existing file to the backup path.
    MakingBackup,
    /// Waiting for the exclusive creation of the new file.
    Creating,
    /// Waiting for the blob to be written and flushed.
    Writing,
    /// The write failed with a backup present: waiting for the rename of the
    /// backup back to the target path.
    RollingBack,
    /// A fresh write failed: waiting for the removal of the partial file.
    Cleaning,
    DoneUpdated,
    DoneRolledBack,
    DoneFailed,
}

/// The filesystem action the driver must perform next; all actions concern
/// the target path and its backup path.
#[derive(Clone, Copy, Debug, PartialEq, Eq, Structural)]
pub enum StoreAction {
    /// Fetch metadata for the target path and report it as a `MetaLookup`.
    CheckFileExists,
    /// Atomically rename the target path to the backup path; fail rather
    /// than overwrite an existing file at the backup path.
    RenameToBackup,
    /// Create a new file at the target path, failing if one exists.
    CreateExclusive,
    /// Write the blob to the created file in full, then flush it.
    WriteAndFlush,
    /// Atomically rename the backup path back to the target path.
    RenameBackupToPath,
    /// Remove the partially written file at the target path.
    RemovePartial,
    /// Nothing is left to do: fetch the outcome.
    Done,
}

/// The action the protocol asks for in each phase.
pub open spec fn action_of(phase: StorePhase) -> StoreAction {
    match phase {
        StorePhase::CheckingExists => StoreAction::CheckFileExists,
        StorePhase::MakingBackup => StoreAction::RenameToBackup,
        StorePhase::Creating => StoreAction::CreateExclusive,
        StorePhase::Writing => StoreAction::WriteAndFlush,
        StorePhase::RollingBack => StoreAction::RenameBackupToPath,
        StorePhase::Cleaning => StoreAction::RemovePartial,
        StorePhase::DoneUpdated => StoreAction::Done,
        StorePhase::DoneRolledBack => StoreAction::Done,
        StorePhase::DoneFailed => StoreAction::Done,
    }
}

/// The mathematical state of a durable write: its phase, whether a backup
/// was made, and the blob being written.
pub ghost struct StoreModel {
    pub phase: StorePhase,
    pub had_backup: bool,
    pub binz: Seq<u8>,
}

/// One driver response, abstracted: whether the action succeeded, the answer
/// of an existence check, and the partial content left behind by a failed
/// write.
pub ghost struct StoreEventV {
    pub ok: bool,
    pub exists: bool,
    pub junk: Option<Seq<u8>>,
}

/// The state of the two paths a write touches: the content of the file at
/// the target path and at the backup path, if any.
pub ghost struct FsView {
    pub file: Option<Seq<u8>>,
    pub backup: Option<Seq<u8>>,
}

/// The write protocol's transition on one driver response.
pub open spec fn step_model(m: StoreModel, ev: StoreEventV) -> StoreModel {
    let phase = match m.phase {
        StorePhase::CheckingExists => if !ev.ok {
            StorePhase::DoneFailed
        } else if ev.exists {
            StorePhase::MakingBackup
        } else {
            StorePhase::Creating
        },
        StorePhase::MakingBackup => if ev.ok {
            StorePhase::Creating
        } else {
            StorePhase::DoneFailed
        },
        StorePhase::Creating => if ev.ok {
            StorePhase::Writing
        } else if m.had_backup {
            StorePhase::RollingBack
        } else {
            StorePhase::DoneFailed
        },
        StorePhase::Writing => if ev.ok {
            StorePhase::DoneUpdated
        } else if m.had_backup {
            StorePhase::RollingBack
        } else {
            StorePhase::Cleaning
        },
        StorePhase::RollingBack => if ev.ok {
            StorePhase::DoneRolledBack
        } else {
            StorePhase::DoneFailed
        },
        StorePhase::Cleaning => StorePhase::DoneFailed,
        StorePhase::DoneUpdated => StorePhase::DoneUpdated,
        StorePhase::DoneRolledBack => StorePhase::DoneRolledBack,
        StorePhase::DoneFailed => StorePhase::DoneFailed,
    };
    let had_backup = if m.phase is CheckingExists && ev.ok && ev.exists {
        true
    } else {
        m.had_backup
    };
    StoreModel { phase, had_backup, binz: m.binz }
}

/// What performing the pending action with the given outcome does to the
/// two paths: renames move content atomically, a successful write puts the
/// blob in place, a failed write leaves arbitrary partial content.
pub open spec fn fs_step(fs: FsView, m: StoreModel, ev: StoreEventV) -> FsView {
    match m.phase {
        StorePhase::CheckingExists => fs,
        StorePhase::MakingBackup => if ev.ok {
            FsView { file: None, backup: fs.file }
        } else {
            fs
        },
        StorePhase::Creating => if ev.ok {
            FsView { file: Some(Seq::empty()), backup: fs.backup }
        } else {
            fs
        },
        StorePhase::Writing => if ev.ok {
            FsView { file: Some(m.binz), backup: fs.backup }
        } else {
            FsView { file: ev.junk, backup: fs.backup }
        },
        StorePhase::RollingBack => if ev.ok {
            FsView { file: fs.backup, backup: None }
        } else {
            fs
        },
        StorePhase::Cleaning => if ev.ok {
            FsView { file: None, backup: fs.backup }
        } else {
            fs
        },
        StorePhase::DoneUpdated => fs,
        StorePhase::DoneRolledBack => fs,
        StorePhase::DoneFailed => fs,
    }
}

/// An honest driver response: an existence check answers what the filesystem
/// holds, a rename to the backup path succeeds only when no stale backup is
/// in the way and the source exists, an exclusive creation succeeds only on
/// a missing path, and a rollback rename succeeds only when the backup is
/// there.
pub open spec fn ev_valid(fs: FsView, m: StoreModel, ev: StoreEventV) -> bool {
    match m.phase {
        StorePhase::CheckingExists => ev.ok ==> (ev.exists <==> fs.file is Some),
        StorePhase::MakingBackup => ev.ok ==> fs.backup is None && fs.file is Some,
        StorePhase::Creating => ev.ok ==> fs.file is None,
        StorePhase::RollingBack => ev.ok ==> fs.backup is Some,
        _ => true,
    }
}

/// The protocol and filesystem state after a sequence of driver responses.
pub open spec fn run_store(m: StoreModel, fs: FsView, evs: Seq<StoreEventV>) -> (StoreModel, FsView)
    decreases evs.len(),
{
    if evs.len() == 0 {
        (m, fs)
    } else {
        run_store(step_model(m, evs[0]), fs_step(fs, m, evs[0]), evs.drop_first())
    }
}

/// Every response along the run is honest.
pub open spec fn valid_run(m: StoreModel, fs: FsView, evs: Seq<StoreEventV>) -> bool
    decreases evs.len(),
{
    evs.len() == 0 || (ev_valid(fs, m, evs[0]) && valid_run(
        step_model(m, evs[0]),
        fs_step(fs, m, evs[0]),
        evs.drop_first(),
    ))
}

/// Every response reports success.
pub open spec fn all_events_ok(evs: Seq<StoreEventV>) -> bool {
    forall|i: int| 0 <= i < evs.len() ==> (#[trigger] evs[i]).ok
}

/// Only the write-and-flush action is allowed to fail along the run; every
/// other action succeeds.
pub open spec fn events_ok_outside_write(m: StoreModel, evs: Seq<StoreEventV>) -> bool
    decreases evs.len(),
{
    evs.len() == 0 || ((m.phase is Writing || evs[0].ok) && events_ok_outside_write(
        step_model(m, evs[0]),
        evs.drop_first(),
    ))
}

/// The state of a freshly begun write of the given blob.
pub open spec fn init_model(binz: Seq<u8>) -> StoreModel {
    StoreModel { phase: StorePhase::CheckingExists, had_backup: false, binz }
}

/// Whether a metadata lookup counts as a successful existence check.
pub open spec fn meta_ok(meta: MetaLookup) -> bool {
    meta matches MetaLookup::Found { is_file: true, .. } || meta is NotFound
}

/// Whether a metadata lookup reports a file at the path.
pub open spec fn meta_found_file(meta: MetaLookup) -> bool {
    meta matches MetaLookup::Found { is_file: true, .. }
}

/// The event view of a driver response, as used by the protocol transition.
pub open spec fn ev_of(ok: bool, exists: bool) -> StoreEventV {
    StoreEventV { ok, exists, junk: None }
}

/// A durable update of one file: the decision core of the backup, exclusive
/// create, write, rollback protocol. The driver performs each `next_action`
/// against the filesystem and reports what happened; the machine decides
/// what follows and what the outcome is.
pub struct UpdatableWritableFile {
    path: String,
    backup_path: String,
    binz: Vec<u8>,
    phase: StorePhase,
    had_backup: bool,
    write_error: Option<FsUtilError>,
    fail_error: Option<crate::AllocPerfError>,
}

impl View for UpdatableWritableFile {
    type V = StoreModel;

    closed spec fn view(&self) -> StoreModel {
        StoreModel { phase: self.phase, had_backup: self.had_backup, binz: self.binz@ }
    }
}

impl UpdatableWritableFile {
    /// The machine holds the original write error whenever a rollback or
    /// cleanup is pending or has completed, holds a failure error once it has
    /// failed, and derives its backup path from the target path.
    pub closed spec fn wf(self) -> bool {
        &&& (self.phase is RollingBack || self.phase is Cleaning || self.phase is DoneRolledBack)
            ==> self.write_error is Some
        &&& self.phase is DoneFailed ==> self.fail_error is Some
        &&& self.backup_path@ == self.path@ + ".backup"@
    }

    /// The write error recorded for a pending rollback or cleanup.
    pub closed spec fn spec_write_error(self) -> Option<FsUtilError> {
        self.write_error
    }

    /// The error recorded for a failed write.
    pub closed spec fn spec_fail_error(self) -> Option<crate::AllocPerfError> {
        self.fail_error
    }

    pub closed spec fn spec_path(self) -> Seq<char> {
        self.path@
    }

    /// Begin a durable update of `path` with the given blob.
    pub fn update_or_create(path: String, binz: Vec<u8>) -> (r: Self)
        ensures
            r@ == init_model(binz@),
            r.wf(),
            r.spec_path() == path@,
    {
        let backup_path = backup_path_of(path.as_str());
        UpdatableWritableFile {
            path,
            backup_path,
            binz,
            phase: StorePhase::CheckingExists,
            had_backup: false,
            write_error: None,
            fail_error: None,
        }
    }

    /// The filesystem action the driver must perform next.
    pub fn next_action(&self) -> (r: StoreAction)
        ensures
            r == action_of(self@.phase),
    {
        match self.phase {
            StorePhase::CheckingExists => StoreAction::CheckFileExists,
            StorePhase::MakingBackup => StoreAction::RenameToBackup,
            StorePhase::Creating => StoreAction::CreateExclusive,
            StorePhase::Writing => StoreAction::WriteAndFlush,
            StorePhase::RollingBack => StoreAction::RenameBackupToPath,
            StorePhase::Cleaning => StoreAction::RemovePartial,
            StorePhase::DoneUpdated => StoreAction::Done,
            StorePhase::DoneRolledBack => StoreAction::Done,
            StorePhase::DoneFailed => StoreAction::Done,
        }
    }

    /// Whether this write replaces an existing file (a backup was made).
    pub fn updating(&self) -> (r: bool)
        ensures
            r == self@.had_backup,
    {
        self.had_backup
    }

    /// The blob the driver must write when asked for `WriteAndFlush`.
    pub fn bytes_to_write(&self) -> (r: &Vec<u8>)
        ensures
            r@ == self@.binz,
    {
        &self.binz
    }

    /// The target path of this write.
    pub fn target_path(&self) -> (r: &String)
        ensures
            r@ == self.spec_path(),
    {
        &self.path
    }

    /// The backup path of this write.
    pub fn backup_target(&self) -> (r: &String)
        requires
            self.wf(),
        ensures
            r@ == self.spec_path() + ".backup"@,
    {
        &self.backup_path
    }

    /// Feed the result of the existence check. A file means an update (make
    /// a backup first); a missing path means a fresh write; anything else
    /// fails the write before the filesystem is touched.
    pub fn on_exists(&mut self, meta: MetaLookup)
        requires
            old(self).wf(),
            old(self)@.phase is CheckingExists,
        ensures
            final(self)@ == step_model(old(self)@, ev_of(meta_ok(meta), meta_found_file(meta))),
            final(self).wf(),
            final(self).spec_path() == old(self).spec_path(),
            meta matches MetaLookup::Found { is_file: false, .. } ==> final(self).spec_fail_error()
                matches Some(crate::AllocPerfError::FsUtil(FsUtilError::ExistsButNotFile(p)))
                && p@ == final(self).spec_path(),
            meta matches MetaLookup::LookupFailed { message } ==> final(self).spec_fail_error()
                matches Some(
                crate::AllocPerfError::FsUtil(
                    FsUtilError::UnexpectedErrorGettingMetaInfo { path: p, source },
                ),
            ) && p@ == final(self).spec_path() && source@ == message@,
    {
        match file_exists(self.path.as_str(), meta) {
            Ok(true) => {
                self.phase = StorePhase::MakingBackup;
                self.had_backup = true;
            },
            Ok(false) => {
                self.phase = StorePhase::Creating;
            },
            Err(e) => {
                self.phase = StorePhase::DoneFailed;
                self.fail_error = Some(crate::AllocPerfError::FsUtil(e));
            },
        }
    }

    /// Feed the result of renaming the existing file to the backup path.
    pub fn on_backup_renamed(&mut self, r: Result<(), String>)
        requires
            old(self).wf(),
            old(self)@.phase is MakingBackup,
        ensures
            final(self)@ == step_model(old(self)@, ev_of(r is Ok, false)),
            final(self).wf(),
            final(self).spec_path() == old(self).spec_path(),
            r matches Err(source) ==> final(self).spec_fail_error() matches Some(
                crate::AllocPerfError::FsUtil(
                    FsUtilError::RenameFailed { src_path, dst_path, source: s },
                ),
            ) && src_path@ == final(self).spec_path() && dst_path@ == final(self).spec_path() + ".backup"@ && s@
                == source@,
    {
        match r {
            Ok(()) => {
                self.phase = StorePhase::Creating;
            },
            Err(source) => {
                self.phase = StorePhase::DoneFailed;
                self.fail_error = Some(
                    crate::AllocPerfError::FsUtil(
                        FsUtilError::RenameFailed {
                            src_path: self.path.clone(),
                            dst_path: self.backup_path.clone(),
                            source,
                        },
                    ),
                );
            },
        }
    }

    /// Feed the result of the exclusive creation of the new file. On failure
    /// an update rolls back; a fresh write fails with nothing to undo.
    pub fn on_created(&mut self, r: Result<(), String>)
        requires
            old(self).wf(),
            old(self)@.phase is Creating,
        ensures
            final(self)@ == step_model(old(self)@, ev_of(r is Ok, false)),
            final(self).wf(),
            final(self).spec_path() == old(self).spec_path(),
            r matches Err(source) ==> (if old(self)@.had_backup {
                final(self).spec_write_error() matches Some(
                    FsUtilError::NewWritableFileCreationFailed { path: p, source: s },
                ) && p@ == final(self).spec_path() && s@ == source@
            } else {
                final(self).spec_fail_error() matches Some(
                    crate::AllocPerfError::FsUtil(
                        FsUtilError::NewWritableFileCreationFailed { path: p, source: s },
                    ),
                ) && p@ == final(self).spec_path() && s@ == source@
            }),
    {
        match r {
            Ok(()) => {
                self.phase = StorePhase::Writing;
            },
            Err(source) => {
                let e = FsUtilError::NewWritableFileCreationFailed {
                    path: self.path.clone(),
                    source,
                };
                if self.had_backup {
                    self.phase = StorePhase::RollingBack;
                    self.write_error = Some(e);
                } else {
                    self.phase = StorePhase::DoneFailed;
                    self.fail_error = Some(crate::AllocPerfError::FsUtil(e));
                }
            },
        }
    }

    /// Feed the result of writing and flushing the blob. Success completes
    /// the update; failure rolls back when a backup exists, and otherwise
    /// asks for the partial file to be removed.
    pub fn on_written(&mut self, r: Result<(), WriteFailure>)
        requires
            old(self).wf(),
            old(self)@.phase is Writing,
        ensures
            final(self)@ == step_model(old(self)@, ev_of(r is Ok, false)),
            final(self).wf(),
            final(self).spec_path() == old(self).spec_path(),
            r matches Err(WriteFailure::Write(source)) ==> final(self).spec_write_error() matches Some(
                FsUtilError::NewWritableFileWriteFailed { path: p, source: s },
            ) && p@ == final(self).spec_path() && s@ == source@,
            r matches Err(WriteFailure::Flush(source)) ==> final(self).spec_write_error() matches Some(
                FsUtilError::NewWritableFileFlushFailed { path: p, source: s },
            ) && p@ == final(self).spec_path() && s@ == source@,
    {
        match r {
            Ok(()) => {
                self.phase = StorePhase::DoneUpdated;
            },
            Err(failure) => {
                let e = match failure {
                    WriteFailure::Write(source) => FsUtilError::NewWritableFileWriteFailed {
                        path: self.path.clone(),
                        source,
                    },
                    WriteFailure::Flush(source) => FsUtilError::NewWritableFileFlushFailed {
                        path: self.path.clone(),
                        source,
                    },
                };
                self.write_error = Some(e);
                if self.had_backup {
                    self.phase = StorePhase::RollingBack;
                } else {
                    self.phase = StorePhase::Cleaning;
                }
            },
        }
    }

    /// Feed the result of the rollback rename. Success restores the previous
    /// version; failure is the fatal double failure, and both errors are
    /// preserved.
    pub fn on_rolled_back(&mut self, r: Result<(), String>)
        requires
            old(self).wf(),
            old(self)@.phase is RollingBack,
        ensures
            final(self)@ == step_model(old(self)@, ev_of(r is Ok, false)),
            final(self).wf(),
            final(self).spec_path() == old(self).spec_path(),
            r is Ok ==> final(self).spec_write_error() == old(self).spec_write_error(),
            r matches Err(source) ==> old(self).spec_write_error() matches Some(we) && (
            final(self).spec_fail_error() matches Some(
                crate::AllocPerfError::FsUtil(
                    FsUtilError::RollbackRenameFailed { write_error, rename_error },
                ),
            ) && ((*write_error) == we && ((*rename_error) matches FsUtilError::RenameFailed {
                src_path,
                dst_path,
                source: s,
            } && (src_path@ == final(self).spec_path() + ".backup"@ && dst_path@ == final(self).spec_path()
                && s@ == source@)))),
    {
        match r {
            Ok(()) => {
                self.phase = StorePhase::DoneRolledBack;
            },
            Err(source) => {
                let rename_error = FsUtilError::RenameFailed {
                    src_path: self.backup_path.clone(),
                    dst_path: self.path.clone(),
                    source,
                };
                match self.write_error.take() {
                    Some(we) => {
                        self.phase = StorePhase::DoneFailed;
                        self.fail_error = Some(
                            crate::AllocPerfError::FsUtil(
                                FsUtilError::RollbackRenameFailed {
                                    write_error: Box::new(we),
                                    rename_error: Box::new(rename_error),
                                },
                            ),
                        );
                    },
                    None => {
                        proof {
                            assert(false);
                        }
                    },
                }
            },
        }
    }

    /// Feed the result of removing the partial fresh file. Either way the
    /// write has failed; a removal failure is preserved beside the write
    /// error.
    pub fn on_removed(&mut self, r: Result<(), String>)
        requires
            old(self).wf(),
            old(self)@.phase is Cleaning,
        ensures
            final(self)@ == step_model(old(self)@, ev_of(r is Ok, false)),
            final(self).wf(),
            final(self).spec_path() == old(self).spec_path(),
            r is Ok ==> (old(self).spec_write_error() matches Some(we) && final(self).spec_fail_error()
                == Some(crate::AllocPerfError::FsUtil(we))),
            r matches Err(source) ==> old(self).spec_write_error() matches Some(we) && (
            final(self).spec_fail_error() matches Some(
                crate::AllocPerfError::FsUtil(
                    FsUtilError::CleanupRemoveFailed { write_error, remove_error },
                ),
            ) && ((*write_error) == we && remove_error@ == source@)),
    {
        match self.write_error.take() {
            Some(we) => {
                self.phase = StorePhase::DoneFailed;
                match r {
                    Ok(()) => {
                        self.fail_error = Some(crate::AllocPerfError::FsUtil(we));
                    },
                    Err(source) => {
                        self.fail_error = Some(
                            crate::AllocPerfError::FsUtil(
                                FsUtilError::CleanupRemoveFailed {
                                    write_error: Box::new(we),
                                    remove_error: source,
                                },
                            ),
                        );
                    },
                }
            },
            None => {
                proof {
                    assert(false);
                }
            },
        }
    }

    /// The outcome of a completed write: `Updated`, `RolledBack` carrying
    /// the original write error, or the recorded failure.
    pub fn outcome(self) -> (r: crate::AllocPerfRes<UpdatedOrRolledBack>)
        requires
            self.wf(),
            self@.phase is DoneUpdated || self@.phase is DoneRolledBack || self@.phase
                is DoneFailed,
        ensures
            self@.phase is DoneUpdated ==> r matches Ok(UpdatedOrRolledBack::Updated),
            self@.phase is DoneRolledBack ==> (self.spec_write_error() matches Some(we) && (
            r matches Ok(UpdatedOrRolledBack::RolledBack { write_error }) && write_error
                == crate::AllocPerfError::FsUtil(we))),
            self@.phase is DoneFailed ==> (self.spec_fail_error() matches Some(e) && r == Err::<
                UpdatedOrRolledBack,
                crate::AllocPerfError,
            >(e)),
    {
        match self.phase {
            StorePhase::DoneUpdated => Ok(UpdatedOrRolledBack::Updated),
            StorePhase::DoneRolledBack => match self.write_error {
                Some(we) => Ok(
                    UpdatedOrRolledBack::RolledBack {
                        write_error: crate::AllocPerfError::FsUtil(we),
                    },
                ),
                None => {
                    proof {
                        assert(false);
                    }
                    Ok(UpdatedOrRolledBack::Updated)
                },
            },
            StorePhase::DoneFailed => match self.fail_error {
                Some(e) => Err(e),
                None => {
                    proof {
                        assert(false);
                    }
                    Ok(UpdatedOrRolledBack::Updated)
                },
            },
            _ => {
                proof {
                    assert(false);
                }
                Ok(UpdatedOrRolledBack::Updated)
            },
        }
    }
}

/// Inductive invariant for a run in which every action succeeds.
spec fn inv_success(m: StoreModel, fs: FsView, binz: Seq<u8>, f0: Option<Seq<u8>>) -> bool {
    &&& m.binz == binz
    &&& match m.phase {
        StorePhase::CheckingExists => !m.had_backup && fs.file == f0 && fs.backup is None,
        StorePhase::MakingBackup => m.had_backup && f0 is Some && fs.file == f0 && fs.backup
            is None,
        StorePhase::Creating => (m.had_backup <==> f0 is Some) && fs.file is None && fs.backup
            == f0,
        StorePhase::Writing => (m.had_backup <==> f0 is Some) && fs.file == Some(
            Seq::<u8>::empty(),
        ) && fs.backup == f0,
        StorePhase::DoneUpdated => fs.file == Some(binz) && fs.backup == f0,
        _ => false,
    }
}

proof fn lemma_run_inv_success(
    m: StoreModel,
    fs: FsView,
    evs: Seq<StoreEventV>,
    binz: Seq<u8>,
    f0: Option<Seq<u8>>,
)
    requires
        inv_success(m, fs, binz, f0),
        valid_run(m, fs, evs),
        all_events_ok(evs),
    ensures
        inv_success(run_store(m, fs, evs).0, run_store(m, fs, evs).1, binz, f0),
    decreases evs.len(),
{
    if evs.len() > 0 {
        let ev = evs[0];
        assert(ev.ok);
        let m1 = step_model(m, ev);
        let fs1 = fs_step(fs, m, ev);
        assert(inv_success(m1, fs1, binz, f0));
        assert forall|i: int| 0 <= i < evs.drop_first().len() implies (#[trigger] evs.drop_first()[
            i
        ]).ok by {
            assert(evs.drop_first()[i] == evs[i + 1]);
        }
        lemma_run_inv_success(m1, fs1, evs.drop_first(), binz, f0);
    }
}

/// When every action of a write succeeds, the completed write leaves the new
/// blob at the target path; the previous content, if any, sits at the backup
/// path as the last good copy, and a fresh write leaves no backup.
pub proof fn lemma_store_success(binz: Seq<u8>, f0: Option<Seq<u8>>, evs: Seq<StoreEventV>)
    requires
        valid_run(init_model(binz), FsView { file: f0, backup: None }, evs),
        all_events_ok(evs),
        run_store(init_model(binz), FsView { file: f0, backup: None }, evs).0.phase
            is DoneUpdated,
    ensures
        run_store(init_model(binz), FsView { file: f0, backup: None }, evs).1.file == Some(binz),
        run_store(init_model(binz), FsView { file: f0, backup: None }, evs).1.backup == f0,
{
    lemma_run_inv_success(init_model(binz), FsView { file: f0, backup: None }, evs, binz, f0);
}

/// Inductive invariant for an update of an existing file in which only the
/// write step may fail.
spec fn inv_rollback(m: StoreModel, fs: FsView, binz: Seq<u8>, orig: Seq<u8>) -> bool {
    &&& m.binz == binz
    &&& match m.phase {
        StorePhase::CheckingExists => !m.had_backup && fs.file == Some(orig) && fs.backup
            is None,
        StorePhase::MakingBackup => m.had_backup && fs.file == Some(orig) && fs.backup is None,
        StorePhase::Creating => m.had_backup && fs.file is None && fs.backup == Some(orig),
        StorePhase::Writing => m.had_backup && fs.file == Some(Seq::<u8>::empty()) && fs.backup
            == Some(orig),
        StorePhase::RollingBack => m.had_backup && fs.backup == Some(orig),
        StorePhase::DoneUpdated => true,
        StorePhase::DoneRolledBack => fs.file == Some(orig) && fs.backup is None,
        _ => false,
    }
}

proof fn lemma_run_inv_rollback(
    m: StoreModel,
    fs: FsView,
    evs: Seq<StoreEventV>,
    binz: Seq<u8>,
    orig: Seq<u8>,
)
    requires
        inv_rollback(m, fs, binz, orig),
        valid_run(m, fs, evs),
        events_ok_outside_write(m, evs),
    ensures
        inv_rollback(run_store(m, fs, evs).0, run_store(m, fs, evs).1, binz, orig),
    decreases evs.len(),
{
    if evs.len() > 0 {
        let ev = evs[0];
        let m1 = step_model(m, ev);
        let fs1 = fs_step(fs, m, ev);
        assert(inv_rollback(m1, fs1, binz, orig));
        lemma_run_inv_rollback(m1, fs1, evs.drop_first(), binz, orig);
    }
}

/// Rollback law: when a write over an existing file fails at the write step
/// while every other action succeeds, and the protocol reports `RolledBack`,
/// the target path holds exactly the prior content again and no file remains
/// at the backup path.
pub proof fn lemma_store_rollback_restores(binz: Seq<u8>, orig: Seq<u8>, evs: Seq<StoreEventV>)
    requires
        valid_run(init_model(binz), FsView { file: Some(orig), backup: None }, evs),
        events_ok_outside_write(init_model(binz), evs),
        run_store(init_model(binz), FsView { file: Some(orig), backup: None }, evs).0.phase
            is DoneRolledBack,
    ensures
        run_store(init_model(binz), FsView { file: Some(orig), backup: None }, evs).1.file
            == Some(orig),
        run_store(init_model(binz), FsView { file: Some(orig), backup: None }, evs).1.backup
            is None,
{
    lemma_run_inv_rollback(
        init_model(binz),
        FsView { file: Some(orig), backup: None },
        evs,
        binz,
        orig,
    );
}

/// Inductive invariant for a fresh write in which only the write step may
/// fail.
spec fn inv_fresh(m: StoreModel, fs: FsView, binz: Seq<u8>) -> bool {
    &&& m.binz == binz
    &&& !m.had_backup
    &&& match m.phase {
        StorePhase::CheckingExists => fs.file is None && fs.backup is None,
        StorePhase::Creating => fs.file is None && fs.backup is None,
        StorePhase::Writing => fs.file == Some(Seq::<u8>::empty()) && fs.backup is None,
        StorePhase::Cleaning => fs.backup is None,
        StorePhase::DoneUpdated => true,
        StorePhase::DoneFailed => fs.file is None && fs.backup is None,
        _ => false,
    }
}

proof fn lemma_run_inv_fresh(m: StoreModel, fs: FsView, evs: Seq<StoreEventV>, binz: Seq<u8>)
    requires
        inv_fresh(m, fs, binz),
        valid_run(m, fs, evs),
        events_ok_outside_write(m, evs),
    ensures
        inv_fresh(run_store(m, fs, evs).0, run_store(m, fs, evs).1, binz),
    decreases evs.len(),
{
    if evs.len() > 0 {
        let ev = evs[0];
        let m1 = step_model(m, ev);
        let fs1 = fs_step(fs, m, ev);
        assert(inv_fresh(m1, fs1, binz));
        lemma_run_inv_fresh(m1, fs1, evs.drop_first(), binz);
    }
}

/// Fresh-write law: when a write to a path with no existing file fails at the
/// write step while every other action succeeds, the protocol ends in failure
/// with no file left at the target path and none at the backup path.
pub proof fn lemma_store_fresh_write_leaves_nothing(binz: Seq<u8>, evs: Seq<StoreEventV>)
    requires
        valid_run(init_model(binz), FsView { file: None, backup: None }, evs),
        events_ok_outside_write(init_model(binz), evs),
        run_store(init_model(binz), FsView { file: None, backup: None }, evs).0.phase
            is DoneFailed,
    ensures
        run_store(init_model(binz), FsView { file: None, backup: None }, evs).1.file is None,
        run_store(init_model(binz), FsView { file: None, backup: None }, evs).1.backup is None,
{
    lemma_run_inv_fresh(init_model(binz), FsView { file: None, backup: None }, evs, binz);
}

} // verus!
