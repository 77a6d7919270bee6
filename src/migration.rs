use vstd::prelude::*;

verus! {

/// The nine steps of the legacy migration, in the order they run.
#[derive(PartialEq, Eq, Structural, Clone, Copy, Debug)]
pub enum MigrationStep {
    /// Copy the legacy database and its sidecar files to backup paths.
    Backup,
    /// Flush the legacy write-ahead log into the main file.
    Checkpoint,
    /// Create the Default workspace.
    CreateTarget,
    /// Copy the legacy database into the new workspace.
    CopyDatabase,
    /// Copy the global tables into the global database.
    ExtractGlobal,
    /// Drop the global tables from the workspace copy.
    CleanCopy,
    /// Check that the recorded media folders still exist.
    VerifyMedia,
    /// Switch to the new workspace.
    Activate,
    /// Compare the record counts of the legacy and the new database.
    VerifyIntegrity,
}

/// Number of steps of the migration.
pub const STEP_COUNT: usize = 9;

/// The step at position `i` (from zero).
pub open spec fn step_at(i: int) -> MigrationStep {
    if i <= 0 {
        MigrationStep::Backup
    } else if i == 1 {
        MigrationStep::Checkpoint
    } else if i == 2 {
        MigrationStep::CreateTarget
    } else if i == 3 {
        MigrationStep::CopyDatabase
    } else if i == 4 {
        MigrationStep::ExtractGlobal
    } else if i == 5 {
        MigrationStep::CleanCopy
    } else if i == 6 {
        MigrationStep::VerifyMedia
    } else if i == 7 {
        MigrationStep::Activate
    } else {
        MigrationStep::VerifyIntegrity
    }
}

/// Steps whose failure is reported but never stops the migration.
pub open spec fn is_advisory(s: MigrationStep) -> bool {
    s is VerifyMedia || s is VerifyIntegrity
}

/// The step at position `i`, when `i` is below the number of steps.
pub fn step_at_index(i: usize) -> (r: Option<MigrationStep>)
    ensures
        i < STEP_COUNT ==> r == Some(step_at(i as int)),
        i >= STEP_COUNT ==> r is None,
{
    if i == 0 {
        Some(MigrationStep::Backup)
    } else if i == 1 {
        Some(MigrationStep::Checkpoint)
    } else if i == 2 {
        Some(MigrationStep::CreateTarget)
    } else if i == 3 {
        Some(MigrationStep::CopyDatabase)
    } else if i == 4 {
        Some(MigrationStep::ExtractGlobal)
    } else if i == 5 {
        Some(MigrationStep::CleanCopy)
    } else if i == 6 {
        Some(MigrationStep::VerifyMedia)
    } else if i == 7 {
        Some(MigrationStep::Activate)
    } else if i == 8 {
        Some(MigrationStep::VerifyIntegrity)
    } else {
        None
    }
}

/// Whether a failure of the step is only reported.
pub fn step_is_advisory(s: MigrationStep) -> (r: bool)
    ensures
        r == is_advisory(s),
{
    match s {
        MigrationStep::VerifyMedia => true,
        MigrationStep::VerifyIntegrity => true,
        _ => false,
    }
}

/// Something the migration reports without stopping.
#[derive(Clone, Debug)]
pub enum Advisory {
    /// This many recorded media folders no longer exist.
    InaccessibleMedia(usize),
    /// The legacy and the new database hold different numbers of records.
    CountMismatch { original: i64, workspace: i64 },
    /// An advisory step could not be carried out.
    CheckFailed(String),
}

/// What carrying out one step gave.
#[derive(Clone, Debug)]
pub enum StepOutcome {
    Done,
    Warning(Advisory),
    Failed(String),
}

/// An advisory outcome, with the step that gave it.
#[derive(Clone, Debug)]
pub struct MigrationWarning {
    pub step: MigrationStep,
    pub advisory: Advisory,
}

/// The step that stopped a migration, and why.
#[derive(Clone, Debug)]
pub struct MigrationFailure {
    pub step: MigrationStep,
    pub message: String,
}

/// Progress of one migration: how many steps are done, the warnings so far, and the
/// failure that stopped it, if any.
pub struct MigrationRun {
    completed: usize,
    warnings: Vec<MigrationWarning>,
    failure: Option<MigrationFailure>,
}

impl MigrationRun {
    /// Number of steps carried out so far.
    pub closed spec fn done(&self) -> nat {
        self.completed as nat
    }

    /// Warnings recorded so far, in order.
    pub closed spec fn warning_log(&self) -> Seq<MigrationWarning> {
        self.warnings@
    }

    /// The failure that stopped the run.
    pub closed spec fn stopped(&self) -> Option<MigrationFailure> {
        self.failure
    }

    /// The run's counters are in range.
    pub open spec fn wf(&self) -> bool {
        self.done() <= STEP_COUNT
    }

    /// The step to carry out next: none once the run stopped or all steps are done.
    pub open spec fn pending(&self) -> Option<MigrationStep> {
        if self.stopped() is None && self.done() < STEP_COUNT {
            Some(step_at(self.done() as int))
        } else {
            None
        }
    }

    /// A run with no step carried out.
    pub fn new() -> (r: Self)
        ensures
            r.wf(),
            r.done() == 0,
            r.warning_log().len() == 0,
            r.stopped() is None,
    {
        MigrationRun { completed: 0, warnings: Vec::new(), failure: None }
    }

    /// The step to carry out next.
    pub fn next_step(&self) -> (r: Option<MigrationStep>)
        requires
            self.wf(),
        ensures
            r == self.pending(),
    {
        if self.failure.is_some() {
            None
        } else {
            step_at_index(self.completed)
        }
    }

    /// Number of steps carried out so far.
    pub fn steps_done(&self) -> (r: usize)
        ensures
            r == self.done(),
    {
        self.completed
    }

    /// All nine steps ran and none stopped the run.
    pub fn is_complete(&self) -> (r: bool)
        ensures
            r == (self.stopped() is None && self.done() == STEP_COUNT),
    {
        self.failure.is_none() && self.completed == STEP_COUNT
    }

    /// Records what the pending step gave. A failure of a step that is not advisory
    /// stops the run; any other outcome moves on to the next step, and an advisory
    /// outcome or a failed advisory step is kept as a warning.
    pub fn record(&mut self, outcome: StepOutcome)
        requires
            old(self).wf(),
            old(self).pending() is Some,
        ensures
            final(self).wf(),
            ({
                let step = old(self).pending()->0;
                match outcome {
                    StepOutcome::Done => {
                        &&& final(self).done() == old(self).done() + 1
                        &&& final(self).warning_log() == old(self).warning_log()
                        &&& final(self).stopped() is None
                    },
                    StepOutcome::Warning(a) => {
                        &&& final(self).done() == old(self).done() + 1
                        &&& final(self).warning_log() == old(self).warning_log().push(
                            MigrationWarning { step, advisory: a },
                        )
                        &&& final(self).stopped() is None
                    },
                    StepOutcome::Failed(m) => if is_advisory(step) {
                        &&& final(self).done() == old(self).done() + 1
                        &&& final(self).warning_log() == old(self).warning_log().push(
                            MigrationWarning { step, advisory: Advisory::CheckFailed(m) },
                        )
                        &&& final(self).stopped() is None
                    } else {
                        &&& final(self).done() == old(self).done()
                        &&& final(self).warning_log() == old(self).warning_log()
                        &&& final(self).stopped() == Some(MigrationFailure { step, message: m })
                    },
                }
            }),
    {
        let step = step_at_index(self.completed).unwrap();
        match outcome {
            StepOutcome::Done => {
                self.completed = self.completed + 1;
            },
            StepOutcome::Warning(a) => {
                self.warnings.push(MigrationWarning { step, advisory: a });
                self.completed = self.completed + 1;
            },
            StepOutcome::Failed(m) => {
                if step_is_advisory(step) {
                    self.warnings.push(MigrationWarning { step, advisory: Advisory::CheckFailed(m) });
                    self.completed = self.completed + 1;
                } else {
                    self.failure = Some(MigrationFailure { step, message: m });
                }
            },
        }
    }

    /// The failure that stopped the run, if any.
    pub fn failure(&self) -> (r: &Option<MigrationFailure>)
        ensures
            *r == self.stopped(),
    {
        &self.failure
    }

    /// The warnings recorded so far.
    pub fn warnings(&self) -> (r: &Vec<MigrationWarning>)
        ensures
            r@ == self.warning_log(),
    {
        &self.warnings
    }
}

/// Outcome of the media check: a warning when any recorded folder is missing.
pub fn media_outcome(accessible: usize, inaccessible: usize) -> (r: StepOutcome)
    ensures
        inaccessible == 0 ==> r is Done,
        inaccessible > 0 ==> r == StepOutcome::Warning(Advisory::InaccessibleMedia(inaccessible)),
{
    if inaccessible == 0 {
        StepOutcome::Done
    } else {
        StepOutcome::Warning(Advisory::InaccessibleMedia(inaccessible))
    }
}

/// Outcome of the integrity check: a warning when the record counts differ.
pub fn integrity_outcome(original: i64, workspace: i64) -> (r: StepOutcome)
    ensures
        original == workspace ==> r is Done,
        original != workspace ==> r == StepOutcome::Warning(
            Advisory::CountMismatch { original, workspace },
        ),
{
    if original == workspace {
        StepOutcome::Done
    } else {
        StepOutcome::Warning(Advisory::CountMismatch { original, workspace })
    }
}

/// Number of `true` values.
pub open spec fn count_true(s: Seq<bool>) -> nat
    decreases s.len(),
{
    if s.len() == 0 {
        0
    } else {
        count_true(s.drop_last()) + if s.last() {
            1nat
        } else {
            0nat
        }
    }
}

/// Counts the media folders that exist and those that do not; `exists` holds one
/// value per recorded folder.
pub fn count_accessible(exists: &Vec<bool>) -> (r: (usize, usize))
    ensures
        r.0 == count_true(exists@),
        r.0 + r.1 == exists@.len(),
{
    let mut accessible: usize = 0;
    let mut inaccessible: usize = 0;
    let mut i: usize = 0;
    while i < exists.len()
        invariant
            i <= exists@.len(),
            accessible == count_true(exists@.subrange(0, i as int)),
            accessible + inaccessible == i,
        decreases exists@.len() - i,
    {
        assert(exists@.subrange(0, i + 1).drop_last() =~= exists@.subrange(0, i as int));
        if exists[i] {
            accessible = accessible + 1;
        } else {
            inaccessible = inaccessible + 1;
        }
        i = i + 1;
    }
    assert(exists@.subrange(0, i as int) =~= exists@);
    (accessible, inaccessible)
}


/// The files of a legacy database.
#[derive(PartialEq, Eq, Structural, Clone, Copy, Debug)]
pub enum DatabaseFile {
    /// The database file itself.
    Main,
    /// The write-ahead log beside it.
    WriteAheadLog,
    /// The shared-memory index beside it.
    SharedMemory,
}

impl DatabaseFile {
    /// The extension that the file's path has, in place of the database's own.
    pub fn extension(&self) -> (r: &'static str)
        ensures
            *self == DatabaseFile::Main ==> r@ == "sqlite"@,
            *self == DatabaseFile::WriteAheadLog ==> r@ == "sqlite-wal"@,
            *self == DatabaseFile::SharedMemory ==> r@ == "sqlite-shm"@,
    {
        match self {
            DatabaseFile::Main => "sqlite",
            DatabaseFile::WriteAheadLog => "sqlite-wal",
            DatabaseFile::SharedMemory => "sqlite-shm",
        }
    }

    /// The extension of the file's backup copy.
    pub fn backup_extension(&self) -> (r: &'static str)
        ensures
            *self == DatabaseFile::Main ==> r@ == "sqlite.pre-workspace-backup"@,
            *self == DatabaseFile::WriteAheadLog ==> r@ == "sqlite-wal.pre-workspace-backup"@,
            *self == DatabaseFile::SharedMemory ==> r@ == "sqlite-shm.pre-workspace-backup"@,
    {
        match self {
            DatabaseFile::Main => "sqlite.pre-workspace-backup",
            DatabaseFile::WriteAheadLog => "sqlite-wal.pre-workspace-backup",
            DatabaseFile::SharedMemory => "sqlite-shm.pre-workspace-backup",
        }
    }
}

/// The files to back up before anything else: always the database, then each
/// sidecar file that exists.
pub fn backup_plan(wal_exists: bool, shm_exists: bool) -> (r: Vec<DatabaseFile>)
    ensures
        r@ == seq![DatabaseFile::Main] + (if wal_exists {
            seq![DatabaseFile::WriteAheadLog]
        } else {
            Seq::empty()
        }) + (if shm_exists {
            seq![DatabaseFile::SharedMemory]
        } else {
            Seq::empty()
        }),
{
    let mut r: Vec<DatabaseFile> = Vec::new();
    r.push(DatabaseFile::Main);
    if wal_exists {
        r.push(DatabaseFile::WriteAheadLog);
    }
    if shm_exists {
        r.push(DatabaseFile::SharedMemory);
    }
    let ghost w: Seq<DatabaseFile> = if wal_exists { seq![DatabaseFile::WriteAheadLog] } else { Seq::empty() };
    let ghost h: Seq<DatabaseFile> = if shm_exists { seq![DatabaseFile::SharedMemory] } else { Seq::empty() };
    assert(r@ =~= seq![DatabaseFile::Main] + w + h);
    r
}

/// The tables that live only in the global database, dropped from the workspace copy.
pub fn global_only_tables() -> (r: Vec<&'static str>)
    ensures
        r@.len() == 5,
        r@[0]@ == "settings"@,
        r@[1]@ == "transcript_settings"@,
        r@[2]@ == "licensing"@,
        r@[3]@ == "custom_openai_config"@,
        r@[4]@ == "_sqlx_migrations"@,
{
    let mut r: Vec<&'static str> = Vec::new();
    r.push("settings");
    r.push("transcript_settings");
    r.push("licensing");
    r.push("custom_openai_config");
    r.push("_sqlx_migrations");
    r
}

} // verus!
