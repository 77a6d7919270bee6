use vstd::prelude::*;

use crate::manager::WorkspaceManager;
use crate::types::DatabaseCheckResult;

verus! {

/// Name of the workspace created on a fresh install or by the legacy migration.
pub const DEFAULT_WORKSPACE_NAME: &'static str = "Default";

/// What application startup does once the manager is initialized.
#[derive(Clone, Debug)]
pub enum StartupPlan {
    /// A legacy database exists and no workspace does: migrate it.
    Migrate,
    /// Switch to this existing workspace.
    Resume(String),
    /// Nothing exists yet: create the Default workspace and switch to it.
    CreateDefault,
}

/// Decides between migration, resuming a workspace, and a fresh install.
/// Resuming prefers the registry's last-active id, then its first entry.
pub fn plan_startup<P>(mgr: &WorkspaceManager<P>, legacy_db_exists: bool) -> (r: StartupPlan)
    ensures
        ({
            let entries = mgr.registry().workspaces@;
            if entries.len() == 0 {
                if legacy_db_exists {
                    r is Migrate
                } else {
                    r is CreateDefault
                }
            } else {
                match mgr.registry().last_active {
                    Some(id) => r == StartupPlan::Resume(id),
                    None => r == StartupPlan::Resume(entries[0].id),
                }
            }
        }),
{
    let entries = mgr.list_workspaces();
    if entries.len() == 0 {
        if legacy_db_exists {
            StartupPlan::Migrate
        } else {
            StartupPlan::CreateDefault
        }
    } else {
        match mgr.last_active_id() {
            Some(id) => StartupPlan::Resume(id),
            None => StartupPlan::Resume(entries[0].id.clone()),
        }
    }
}

/// What startup does once the migration it planned has ended: nothing more when it
/// succeeded, since the migrated workspace is then active; otherwise it falls back
/// to creating the Default workspace and switching to it.
pub fn plan_after_migration(migrated: &Result<String, String>) -> (r: Option<StartupPlan>)
    ensures
        migrated is Ok ==> r is None,
        migrated is Err ==> r == Some(StartupPlan::CreateDefault),
{
    match migrated {
        Ok(_) => None,
        Err(_) => Some(StartupPlan::CreateDefault),
    }
}

/// What the caller found on disk around a path chosen for a legacy import.
pub struct LegacyProbe {
    /// The chosen path is a regular file.
    pub is_file: bool,
    /// The chosen path ends in the extension `db`.
    pub has_db_extension: bool,
    /// The chosen path is a directory.
    pub is_dir: bool,
    /// The path of `meeting_minutes.db` inside the chosen directory.
    pub direct_db_path: String,
    /// That file exists and is a regular file.
    pub direct_db_is_file: bool,
    /// The path of `backend/meeting_minutes.db` inside the chosen directory.
    pub backend_db_path: String,
    /// That file exists and is a regular file.
    pub backend_db_is_file: bool,
}

/// Finds the legacy database for a chosen path: the path itself when it is a `.db`
/// file, else the database directly inside the chosen directory, else the one in
/// its `backend` subdirectory.
pub fn detect_legacy_database(selected_path: String, probe: LegacyProbe) -> (r: Option<String>)
    ensures
        r == if probe.is_file && probe.has_db_extension {
            Some(selected_path)
        } else if probe.is_dir && probe.direct_db_is_file {
            Some(probe.direct_db_path)
        } else if probe.is_dir && probe.backend_db_is_file {
            Some(probe.backend_db_path)
        } else {
            None::<String>
        },
{
    if probe.is_file && probe.has_db_extension {
        return Some(selected_path);
    }
    if probe.is_dir {
        if probe.direct_db_is_file {
            return Some(probe.direct_db_path);
        }
        if probe.backend_db_is_file {
            return Some(probe.backend_db_path);
        }
    }
    None
}

/// Accepts a database found at the old backend's install location only when it is
/// a regular file whose size could be read and is not zero.
pub fn check_homebrew_database(is_file: bool, size: Option<u64>) -> (r: Option<
    DatabaseCheckResult,
>)
    ensures
        r == if is_file && size is Some && size->0 > 0 {
            Some(DatabaseCheckResult { exists: true, size: size->0 })
        } else {
            None::<DatabaseCheckResult>
        },
{
    if !is_file {
        return None;
    }
    match size {
        Some(s) => {
            if s > 0 {
                Some(DatabaseCheckResult { exists: true, size: s })
            } else {
                None
            }
        },
        None => None,
    }
}

} // verus!
