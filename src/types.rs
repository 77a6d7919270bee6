use vstd::prelude::*;

verus! {

/// Per-workspace metadata, stored as a JSON file inside the workspace directory.
#[derive(Clone, Debug)]
pub struct WorkspaceManifest {
    /// Schema version of the manifest format.
    pub version: u32,
    /// Display name.
    pub name: String,
    /// Optional icon.
    pub icon: Option<String>,
    /// Optional accent color.
    pub accent_color: Option<String>,
    /// Optional description of the workspace's purpose.
    pub description: Option<String>,
    /// Version of the application that created the workspace.
    pub app_version: Option<String>,
    /// Creation time, as date-time text.
    pub created_at: String,
    /// Time of the last metadata change, as date-time text.
    pub last_modified: String,
}

/// Cached entry of the registry, used to list workspaces without reading manifests.
#[derive(Clone, Debug)]
pub struct WorkspaceEntry {
    /// UUID text that is also the name of the workspace's directory.
    pub id: String,
    /// Display name, copied from the manifest.
    pub name: String,
    /// Optional icon, copied from the manifest.
    pub icon: Option<String>,
}

/// The installation-wide index of workspaces (`workspaces.json`).
#[derive(Clone, Debug)]
pub struct WorkspaceRegistry {
    /// Schema version of the registry format.
    pub version: u32,
    /// Entries in display order.
    pub workspaces: Vec<WorkspaceEntry>,
    /// Id of the workspace that was active last.
    pub last_active: Option<String>,
}

/// What a probe of a candidate legacy database file found.
#[derive(PartialEq, Eq, Structural, Clone, Copy, Debug)]
pub struct DatabaseCheckResult {
    pub exists: bool,
    pub size: u64,
}

/// An empty registry of the current schema version.
pub open spec fn empty_registry(r: WorkspaceRegistry) -> bool {
    r.version == 1 && r.workspaces@.len() == 0 && r.last_active is None
}

impl Default for WorkspaceRegistry {
    fn default() -> (r: Self)
        ensures
            empty_registry(r),
    {
        WorkspaceRegistry { version: 1, workspaces: Vec::new(), last_active: None }
    }
}

/// Copies an optional string field.
pub fn copy_opt(s: &Option<String>) -> (r: Option<String>)
    ensures
        r == *s,
{
    match s {
        Some(v) => Some(v.clone()),
        None => None,
    }
}

impl WorkspaceEntry {
    /// A field-by-field copy of the entry.
    pub fn copy(&self) -> (r: WorkspaceEntry)
        ensures
            r == *self,
    {
        WorkspaceEntry { id: self.id.clone(), name: self.name.clone(), icon: copy_opt(&self.icon) }
    }
}

/// Copies a sequence of entries, keeping their order.
pub fn copy_entries(v: &Vec<WorkspaceEntry>) -> (r: Vec<WorkspaceEntry>)
    ensures
        r@ == v@,
{
    let mut r: Vec<WorkspaceEntry> = Vec::new();
    let mut i: usize = 0;
    while i < v.len()
        invariant
            i <= v@.len(),
            r@ == v@.subrange(0, i as int),
        decreases v@.len() - i,
    {
        r.push(v[i].copy());
        i = i + 1;
        assert(r@ =~= v@.subrange(0, i as int));
    }
    assert(r@ =~= v@);
    r
}

impl WorkspaceRegistry {
    /// A copy of the registry with the same version, entries and last-active id.
    pub fn copy(&self) -> (r: WorkspaceRegistry)
        ensures
            r.version == self.version,
            r.workspaces@ == self.workspaces@,
            r.last_active == self.last_active,
    {
        WorkspaceRegistry {
            version: self.version,
            workspaces: copy_entries(&self.workspaces),
            last_active: copy_opt(&self.last_active),
        }
    }
}

} // verus!
