use vstd::prelude::*;

use crate::ids::{new_uuid_text, now_rfc3339, is_uuid_text};
use crate::types::{copy_entries, copy_opt, WorkspaceEntry, WorkspaceManifest, WorkspaceRegistry};

verus! {

/// Why a manager operation did not succeed.
#[derive(Clone, Debug)]
pub enum ManagerError {
    /// No workspace is active.
    NoActiveWorkspace,
    /// The workspace's directory does not exist.
    DirectoryMissing,
    /// The workspace's directory holds no manifest.
    ManifestMissing,
    /// Opening the workspace's database or running its schema failed.
    DatabaseFailed(String),
}

/// What the caller found and opened when it resolved the target of a switch.
pub enum SwitchTarget<P> {
    /// No directory exists for the id.
    DirectoryMissing,
    /// The directory exists but holds no manifest file.
    ManifestMissing,
    /// The database could not be opened or its schema could not be run.
    OpenFailed(String),
    /// The workspace's database, open and with its schema in place.
    Opened(P),
}

/// A workspace about to be created: its new id and its first manifest.
#[derive(Clone, Debug)]
pub struct NewWorkspace {
    pub id: String,
    pub manifest: WorkspaceManifest,
}

/// The manifest of a freshly created workspace.
pub open spec fn fresh_manifest(m: WorkspaceManifest, name: String, app_version: String) -> bool {
    &&& m.version == 1
    &&& m.name == name
    &&& m.icon is None
    &&& m.accent_color is None
    &&& m.description is None
    &&& m.app_version == Some(app_version)
    &&& m.created_at == m.last_modified
}

/// Picks a fresh id and writes the first manifest of a workspace named `name`.
pub fn new_workspace(name: String, app_version: String) -> (r: NewWorkspace)
    ensures
        is_uuid_text(r.id@),
        r.id@.len() == 36,
        fresh_manifest(r.manifest, name, app_version),
{
    let id = new_uuid_text();
    let now = now_rfc3339();
    let manifest = WorkspaceManifest {
        version: 1,
        name,
        icon: None,
        accent_color: None,
        description: None,
        app_version: Some(app_version),
        created_at: now.clone(),
        last_modified: now,
    };
    NewWorkspace { id, manifest }
}

/// Owns the always-open global database, the active workspace's database, and the
/// in-memory copy of the registry. `P` is the type of an open database pool.
pub struct WorkspaceManager<P> {
    workspaces_root: String,
    global_db: P,
    active_db: Option<P>,
    active_workspace_id: Option<String>,
    registry: WorkspaceRegistry,
}

impl<P> WorkspaceManager<P> {
    /// The directory that holds every workspace.
    pub closed spec fn root(&self) -> Seq<char> {
        self.workspaces_root@
    }

    /// The global database.
    pub closed spec fn global(&self) -> P {
        self.global_db
    }

    /// The id of the active workspace, if any.
    pub closed spec fn active_id(&self) -> Option<String> {
        self.active_workspace_id
    }

    /// Whether a workspace database is open.
    pub closed spec fn has_active_pool(&self) -> bool {
        self.active_db is Some
    }

    /// The open workspace database, when there is one.
    pub closed spec fn active(&self) -> Option<P> {
        self.active_db
    }

    /// The in-memory registry.
    pub closed spec fn registry(&self) -> WorkspaceRegistry {
        self.registry
    }

    /// The active database and the active id are present together.
    pub open spec fn wf(&self) -> bool {
        &&& self.has_active_pool() <==> self.active_id() is Some
        &&& self.has_active_pool() <==> self.active() is Some
    }

    /// Starts a manager over an open global database and a loaded registry, with no
    /// workspace active.
    pub fn new(workspaces_root: String, global_db: P, registry: WorkspaceRegistry) -> (r: Self)
        ensures
            r.wf(),
            r.root() == workspaces_root@,
            r.global() == global_db,
            r.active_id() is None,
            r.registry() == registry,
    {
        WorkspaceManager {
            workspaces_root,
            global_db,
            active_db: None,
            active_workspace_id: None,
            registry,
        }
    }

    /// The active workspace's database, or an error when none is active.
    pub fn active_pool(&self) -> (r: Result<&P, ManagerError>)
        requires
            self.wf(),
        ensures
            r is Ok <==> self.active_id() is Some,
            r is Ok ==> Some(*r->Ok_0) == self.active(),
            r is Err ==> r->Err_0 is NoActiveWorkspace,
    {
        match &self.active_db {
            Some(p) => Ok(p),
            None => Err(ManagerError::NoActiveWorkspace),
        }
    }

    /// The global database, which is always available.
    pub fn global_pool(&self) -> (r: &P)
        ensures
            *r == self.global(),
    {
        &self.global_db
    }

    /// Takes the active database out and clears the active id, together. The caller
    /// closes the database that comes back.
    pub fn close_active_workspace(&mut self) -> (r: Option<P>)
        requires
            old(self).wf(),
        ensures
            final(self).wf(),
            r == old(self).active(),
            final(self).active_id() is None,
            final(self).root() == old(self).root(),
            final(self).global() == old(self).global(),
            final(self).registry() == old(self).registry(),
    {
        self.active_workspace_id = None;
        self.active_db.take()
    }

    /// Finishes a switch to `workspace_id` once the previous database was closed:
    /// with an opened database the workspace becomes active and the registry's
    /// last-active id points to it; otherwise nothing is active and the registry
    /// is unchanged.
    pub fn switch_workspace(&mut self, workspace_id: String, target: SwitchTarget<P>) -> (r:
        Result<(), ManagerError>)
        requires
            old(self).wf(),
            old(self).active_id() is None,
        ensures
            final(self).wf(),
            final(self).root() == old(self).root(),
            final(self).global() == old(self).global(),
            final(self).registry().workspaces@ == old(self).registry().workspaces@,
            final(self).registry().version == old(self).registry().version,
            match target {
                SwitchTarget::Opened(p) => {
                    &&& r is Ok
                    &&& final(self).active_id() == Some(workspace_id)
                    &&& final(self).active() == Some(p)
                    &&& final(self).registry().last_active == Some(workspace_id)
                },
                SwitchTarget::DirectoryMissing => {
                    &&& r == Err::<(), ManagerError>(ManagerError::DirectoryMissing)
                    &&& final(self).active_id() is None
                    &&& final(self).registry() == old(self).registry()
                },
                SwitchTarget::ManifestMissing => {
                    &&& r == Err::<(), ManagerError>(ManagerError::ManifestMissing)
                    &&& final(self).active_id() is None
                    &&& final(self).registry() == old(self).registry()
                },
                SwitchTarget::OpenFailed(e) => {
                    &&& r == Err::<(), ManagerError>(ManagerError::DatabaseFailed(e))
                    &&& final(self).active_id() is None
                    &&& final(self).registry() == old(self).registry()
                },
            },
    {
        match target {
            SwitchTarget::DirectoryMissing => Err(ManagerError::DirectoryMissing),
            SwitchTarget::ManifestMissing => Err(ManagerError::ManifestMissing),
            SwitchTarget::OpenFailed(e) => Err(ManagerError::DatabaseFailed(e)),
            SwitchTarget::Opened(p) => {
                let last = workspace_id.clone();
                self.active_db = Some(p);
                self.active_workspace_id = Some(workspace_id);
                self.registry.last_active = Some(last);
                Ok(())
            },
        }
    }

    /// Records a created workspace at the end of the registry and returns its id.
    /// The workspace does not become active.
    pub fn create_workspace(&mut self, created: &NewWorkspace) -> (r: String)
        requires
            old(self).wf(),
        ensures
            final(self).wf(),
            r == created.id,
            final(self).registry().workspaces@ == old(self).registry().workspaces@.push(
                WorkspaceEntry { id: created.id, name: created.manifest.name, icon: None },
            ),
            final(self).registry().last_active == old(self).registry().last_active,
            final(self).registry().version == old(self).registry().version,
            final(self).active_id() == old(self).active_id(),
            final(self).active() == old(self).active(),
            final(self).root() == old(self).root(),
            final(self).global() == old(self).global(),
    {
        let entry = WorkspaceEntry {
            id: created.id.clone(),
            name: created.manifest.name.clone(),
            icon: None,
        };
        self.registry.workspaces.push(entry);
        created.id.clone()
    }

    /// The registry's entries, in display order.
    pub fn list_workspaces(&self) -> (r: Vec<WorkspaceEntry>)
        ensures
            r@ == self.registry().workspaces@,
    {
        copy_entries(&self.registry.workspaces)
    }

    /// The id of the active workspace, if any.
    pub fn active_workspace_id(&self) -> (r: Option<String>)
        ensures
            r == self.active_id(),
    {
        copy_opt(&self.active_workspace_id)
    }

    /// The directory that holds every workspace.
    pub fn workspaces_root(&self) -> (r: &str)
        ensures
            r@ == self.root(),
    {
        self.workspaces_root.as_str()
    }

    /// The registry's last-active id.
    pub fn last_active_id(&self) -> (r: Option<String>)
        ensures
            r == self.registry().last_active,
    {
        copy_opt(&self.registry.last_active)
    }

    /// The registry as it is to be saved.
    pub fn registry_snapshot(&self) -> (r: &WorkspaceRegistry)
        ensures
            *r == self.registry(),
    {
        &self.registry
    }
}

/// True when no workspace exists yet.
pub fn check_first_launch<P>(mgr: &WorkspaceManager<P>) -> (r: bool)
    ensures
        r == (mgr.registry().workspaces@.len() == 0),
{
    mgr.registry.workspaces.len() == 0
}

} // verus!
