use vstd::prelude::*;

use crate::ids::{is_valid_uuid, is_uuid_text};
use crate::manager::NewWorkspace;
use crate::types::{WorkspaceEntry, WorkspaceManifest, WorkspaceRegistry};

verus! {

/// Stem of the name of the manifest file inside a workspace directory.
pub const MANIFEST_STEM: &'static str = "manifest";

/// Extension of the manifest file.
pub const MANIFEST_EXTENSION: &'static str = "json";

/// Name of the per-workspace config file.
pub const CONFIG_FILE: &'static str = "config.json";

/// Text of the config file that a new workspace starts with.
pub const DEFAULT_CONFIG: &'static str = "{}";

/// Name of the registry file at the workspaces root.
pub const REGISTRY_FILE: &'static str = "workspaces.json";

/// Name of the temporary file that a registry save writes first.
pub const REGISTRY_TEMP_FILE: &'static str = "workspaces.json.tmp";

/// What reading a candidate directory's manifest gave.
#[derive(Clone, Debug)]
pub enum ManifestProbe {
    /// The directory holds no manifest file.
    Missing,
    /// The manifest exists but could not be read or parsed.
    Unreadable(String),
    /// The parsed manifest.
    Read(WorkspaceManifest),
}

/// One entry found under the workspaces root.
#[derive(Clone, Debug)]
pub struct DirCandidate {
    /// The entry's name, when it is valid Unicode.
    pub name: Option<String>,
    /// Whether the entry is a directory.
    pub is_dir: bool,
    /// What reading its manifest gave.
    pub manifest: ManifestProbe,
}

/// The candidate is a workspace: a directory named by a UUID with a readable manifest.
pub open spec fn admitted(c: DirCandidate) -> bool {
    &&& c.is_dir
    &&& c.name is Some
    &&& is_uuid_text(c.name->0@)
    &&& c.manifest is Read
}

/// The registry entry for an admitted candidate.
pub open spec fn candidate_entry(c: DirCandidate) -> WorkspaceEntry {
    WorkspaceEntry {
        id: c.name->0,
        name: c.manifest->Read_0.name,
        icon: c.manifest->Read_0.icon,
    }
}

/// The entries of the admitted candidates, in scan order.
pub open spec fn rebuilt_entries(cs: Seq<DirCandidate>) -> Seq<WorkspaceEntry>
    decreases cs.len(),
{
    if cs.len() == 0 {
        Seq::empty()
    } else {
        let prev = rebuilt_entries(cs.drop_last());
        if admitted(cs.last()) {
            prev.push(candidate_entry(cs.last()))
        } else {
            prev
        }
    }
}

/// Rebuilds the registry from what a scan of the workspaces root found: one entry
/// for each directory named by a UUID whose manifest could be read, in scan order,
/// with no last-active id. Other entries are skipped.
pub fn rebuild_registry_from_disk(candidates: Vec<DirCandidate>) -> (r: WorkspaceRegistry)
    ensures
        r.version == 1,
        r.workspaces@ == rebuilt_entries(candidates@),
        r.last_active is None,
{
    let ghost all = candidates@;
    let mut rest = candidates;
    let mut entries: Vec<WorkspaceEntry> = Vec::new();
    let mut k: usize = 0;
    let n: usize = rest.len();
    assert(all.len() == n);
    while rest.len() > 0
        invariant
            k <= all.len(),
            all.len() <= usize::MAX,
            rest@ == all.subrange(k as int, all.len() as int),
            entries@ == rebuilt_entries(all.subrange(0, k as int)),
        decreases rest@.len(),
    {
        let c = rest.remove(0);
        assert(all.subrange(0, k + 1).drop_last() =~= all.subrange(0, k as int));
        assert(c == all[k as int]);
        if c.is_dir {
            match c.name {
                Some(name) => {
                    if is_valid_uuid(name.as_str()) {
                        match c.manifest {
                            ManifestProbe::Read(m) => {
                                entries.push(WorkspaceEntry { id: name, name: m.name, icon: m.icon });
                            },
                            _ => {},
                        }
                    }
                },
                None => {},
            }
        }
        k = k + 1;
    }
    assert(all.subrange(0, k as int) =~= all);
    WorkspaceRegistry { version: 1, workspaces: entries, last_active: None }
}

/// The registry to start from: what reading and parsing the registry file gave,
/// or an empty one when the file is absent or could not be read or parsed.
pub fn load_registry(file: Option<Result<WorkspaceRegistry, String>>) -> (r: WorkspaceRegistry)
    ensures
        match file {
            Some(Ok(reg)) => r == reg,
            _ => crate::types::empty_registry(r),
        },
{
    match file {
        Some(Ok(reg)) => reg,
        _ => WorkspaceRegistry::default(),
    }
}

/// One file operation of a registry save.
#[derive(PartialEq, Eq, Structural, Clone, Copy, Debug)]
pub enum SaveStep {
    /// Write the whole new registry text to the temporary file.
    WriteTemporary,
    /// Rename the temporary file over the registry file.
    RenameOverLive,
}

/// The registry file and its temporary sibling, as readers would find them.
pub struct RegistryFiles {
    pub live: Option<Seq<char>>,
    pub temporary: Option<Seq<char>>,
}

/// The files after one step of saving `text`. A rename replaces the registry file
/// with the temporary one in a single operation.
pub open spec fn apply_step(f: RegistryFiles, step: SaveStep, text: Seq<char>) -> RegistryFiles {
    match step {
        SaveStep::WriteTemporary => RegistryFiles { live: f.live, temporary: Some(text) },
        SaveStep::RenameOverLive => match f.temporary {
            Some(t) => RegistryFiles { live: Some(t), temporary: None },
            None => f,
        },
    }
}

/// The files after the given steps, in order.
pub open spec fn apply_steps(f: RegistryFiles, steps: Seq<SaveStep>, text: Seq<char>) -> RegistryFiles
    decreases steps.len(),
{
    if steps.len() == 0 {
        f
    } else {
        apply_step(apply_steps(f, steps.drop_last(), text), steps.last(), text)
    }
}

/// The steps of a registry save: write the temporary file, then rename it over
/// the registry file.
pub fn save_registry_plan() -> (r: Vec<SaveStep>)
    ensures
        r@ == seq![SaveStep::WriteTemporary, SaveStep::RenameOverLive],
{
    let mut r: Vec<SaveStep> = Vec::new();
    r.push(SaveStep::WriteTemporary);
    r.push(SaveStep::RenameOverLive);
    assert(r@ =~= seq![SaveStep::WriteTemporary, SaveStep::RenameOverLive]);
    r
}

/// A save interrupted after any number of its steps leaves the registry file either
/// as it was or holding the whole new text, and never removes a file that existed;
/// once every step ran, the file holds the new text.
pub proof fn lemma_save_is_atomic(f: RegistryFiles, text: Seq<char>, k: int)
    requires
        0 <= k <= 2,
    ensures
        ({
            let plan = seq![SaveStep::WriteTemporary, SaveStep::RenameOverLive];
            let after = apply_steps(f, plan.subrange(0, k), text);
            &&& after.live == f.live || after.live == Some(text)
            &&& f.live is Some ==> after.live is Some
            &&& k == 2 ==> after.live == Some(text)
        }),
{
    let plan = seq![SaveStep::WriteTemporary, SaveStep::RenameOverLive];
    let p0 = plan.subrange(0, 0);
    let p1 = plan.subrange(0, 1);
    let p2 = plan.subrange(0, 2);
    assert(p0.len() == 0);
    assert(p1.drop_last() =~= p0);
    assert(p2.drop_last() =~= p1);
    assert(p1.last() == SaveStep::WriteTemporary);
    assert(p2.last() == SaveStep::RenameOverLive);
    let a0 = apply_steps(f, p0, text);
    assert(a0 == f);
    let a1 = apply_steps(f, p1, text);
    assert(a1 == apply_step(a0, SaveStep::WriteTemporary, text));
    assert(a1.live == f.live && a1.temporary == Some(text));
    let a2 = apply_steps(f, p2, text);
    assert(a2 == apply_step(a1, SaveStep::RenameOverLive, text));
    assert(a2.live == Some(text));
    assert(plan.subrange(0, k) == if k == 0 { p0 } else if k == 1 { p1 } else { p2 });
}

/// The entry that `create_workspace` records for a created workspace.
pub open spec fn created_entry(w: NewWorkspace) -> WorkspaceEntry {
    WorkspaceEntry { id: w.id, name: w.manifest.name, icon: None }
}

/// The (id, name) pairs of a sequence of entries.
pub open spec fn id_names(es: Seq<WorkspaceEntry>) -> Set<(Seq<char>, Seq<char>)> {
    Set::new(|p: (Seq<char>, Seq<char>)| exists|i: int| 0 <= i < es.len() && (#[trigger] es[i]).id@ == p.0 && es[i].name@ == p.1)
}

/// The candidate is the directory of the created workspace, as written to disk.
pub open spec fn is_dir_of(c: DirCandidate, w: NewWorkspace) -> bool {
    &&& c.is_dir
    &&& c.name == Some(w.id)
    &&& c.manifest == ManifestProbe::Read(w.manifest)
}

/// Each rebuilt entry is the entry of an admitted candidate, and each admitted
/// candidate gives a rebuilt entry.
proof fn lemma_rebuilt_members(cs: Seq<DirCandidate>)
    ensures
        forall|i: int|
            0 <= i < rebuilt_entries(cs).len() ==> exists|k: int|
                0 <= k < cs.len() && admitted(cs[k]) && #[trigger] rebuilt_entries(cs)[i]
                    == candidate_entry(#[trigger] cs[k]),
        forall|k: int|
            0 <= k < cs.len() && admitted(#[trigger] cs[k]) ==> exists|i: int|
                0 <= i < rebuilt_entries(cs).len() && #[trigger] rebuilt_entries(cs)[i]
                    == candidate_entry(cs[k]),
    decreases cs.len(),
{
    if cs.len() > 0 {
        let p = cs.drop_last();
        lemma_rebuilt_members(p);
        let rp = rebuilt_entries(p);
        let rb = rebuilt_entries(cs);
        let n = cs.len() - 1;
        assert forall|i: int| 0 <= i < rb.len() implies exists|k: int|
            0 <= k < cs.len() && admitted(cs[k]) && #[trigger] rb[i] == candidate_entry(
                #[trigger] cs[k],
            ) by {
            if i < rp.len() {
                assert(rb[i] == rp[i]);
                let k = choose|k: int| 0 <= k < p.len() && admitted(p[k]) && rp[i] == candidate_entry(p[k]);
                assert(p[k] == cs[k]);
            } else {
                assert(rb[i] == candidate_entry(cs[n]));
            }
        }
        assert forall|k: int| 0 <= k < cs.len() && admitted(#[trigger] cs[k]) implies exists|i: int|
            0 <= i < rb.len() && #[trigger] rb[i] == candidate_entry(cs[k]) by {
            if k < n {
                assert(p[k] == cs[k]);
                let i = choose|i: int| 0 <= i < rp.len() && rp[i] == candidate_entry(p[k]);
                assert(rb[i] == rp[i]);
            } else {
                assert(rb[rp.len() as int] == candidate_entry(cs[n]));
            }
        }
    }
}

/// Directory names within one directory are distinct.
pub open spec fn distinct_names(cs: Seq<DirCandidate>) -> bool {
    forall|a: int, b: int|
        0 <= a < b < cs.len() && (#[trigger] cs[a]).name is Some && (#[trigger] cs[b]).name is Some
            ==> cs[a].name->0@ != cs[b].name->0@
}

/// The entries have pairwise different ids.
pub open spec fn distinct_ids(es: Seq<WorkspaceEntry>) -> bool {
    forall|a: int, b: int| 0 <= a < b < es.len() ==> (#[trigger] es[a]).id@ != (#[trigger] es[b]).id@
}

proof fn lemma_rebuilt_distinct(cs: Seq<DirCandidate>)
    requires
        distinct_names(cs),
    ensures
        distinct_ids(rebuilt_entries(cs)),
    decreases cs.len(),
{
    if cs.len() > 0 {
        let p = cs.drop_last();
        let n = cs.len() - 1;
        assert forall|a: int, b: int|
            0 <= a < b < p.len() && (#[trigger] p[a]).name is Some && (#[trigger] p[b]).name is Some
            implies p[a].name->0@ != p[b].name->0@ by {
            assert(p[a] == cs[a] && p[b] == cs[b]);
        }
        lemma_rebuilt_distinct(p);
        lemma_rebuilt_members(p);
        let rp = rebuilt_entries(p);
        let rb = rebuilt_entries(cs);
        if admitted(cs[n]) {
            assert forall|a: int, b: int| 0 <= a < b < rb.len() implies (#[trigger] rb[a]).id@ != (
            #[trigger] rb[b]).id@ by {
                assert(rb[a] == rp[a]);
                if b < rp.len() {
                    assert(rb[b] == rp[b]);
                } else {
                    let k = choose|k: int| 0 <= k < p.len() && admitted(p[k]) && rp[a] == candidate_entry(p[k]);
                    assert(p[k] == cs[k]);
                    assert(rb[b] == candidate_entry(cs[n]));
                }
            }
        }
    }
}

/// Rebuilding from disk recovers what the registry held, whatever else the root
/// holds (the registry file, the global database, stray files and directories):
/// when the admitted entries of the scan (directories with a UUID name and a
/// readable manifest) are exactly the directories of the created workspaces, each
/// with the manifest it was created with, in any order, the rebuilt entries and the
/// entries that `create_workspace` recorded have the same (id, name) pairs; and
/// since directory names are distinct, no id appears twice among the rebuilt entries.
pub proof fn lemma_rebuild_matches_registry(cs: Seq<DirCandidate>, created: Seq<NewWorkspace>)
    requires
        distinct_names(cs),
        forall|j: int| 0 <= j < created.len() ==> is_uuid_text((#[trigger] created[j]).id@),
        forall|i: int|
            0 <= i < cs.len() && admitted(#[trigger] cs[i]) ==> exists|j: int|
                0 <= j < created.len() && is_dir_of(cs[i], #[trigger] created[j]),
        forall|j: int|
            0 <= j < created.len() ==> exists|i: int|
                0 <= i < cs.len() && is_dir_of(#[trigger] cs[i], #[trigger] created[j]),
    ensures
        id_names(rebuilt_entries(cs)) == id_names(created.map_values(|w: NewWorkspace| created_entry(w))),
        distinct_ids(rebuilt_entries(cs)),
{
    let reg = created.map_values(|w: NewWorkspace| created_entry(w));
    let rb = rebuilt_entries(cs);
    lemma_rebuilt_distinct(cs);
    assert forall|p: (Seq<char>, Seq<char>)| id_names(rb).contains(p) implies id_names(reg).contains(p) by {
        lemma_rebuilt_in_created(cs, created, p);
    }
    assert forall|p: (Seq<char>, Seq<char>)| id_names(reg).contains(p) implies id_names(rb).contains(p) by {
        lemma_created_in_rebuilt(cs, created, p);
    }
    assert(id_names(rb) =~= id_names(reg));
}

proof fn lemma_rebuilt_in_created(cs: Seq<DirCandidate>, created: Seq<NewWorkspace>, p: (Seq<char>, Seq<char>))
    requires
        forall|i: int|
            0 <= i < cs.len() && admitted(#[trigger] cs[i]) ==> exists|j: int|
                0 <= j < created.len() && is_dir_of(cs[i], #[trigger] created[j]),
        id_names(rebuilt_entries(cs)).contains(p),
    ensures
        id_names(created.map_values(|w: NewWorkspace| created_entry(w))).contains(p),
{
    let reg = created.map_values(|w: NewWorkspace| created_entry(w));
    let rb = rebuilt_entries(cs);
    lemma_rebuilt_members(cs);
    let i = choose|i: int| 0 <= i < rb.len() && (#[trigger] rb[i]).id@ == p.0 && rb[i].name@ == p.1;
    let k = choose|k: int| 0 <= k < cs.len() && admitted(cs[k]) && rb[i] == candidate_entry(cs[k]);
    let j = choose|j: int| 0 <= j < created.len() && is_dir_of(cs[k], created[j]);
    assert(reg[j] == created_entry(created[j]));
}

proof fn lemma_created_in_rebuilt(cs: Seq<DirCandidate>, created: Seq<NewWorkspace>, p: (Seq<char>, Seq<char>))
    requires
        forall|j: int| 0 <= j < created.len() ==> is_uuid_text((#[trigger] created[j]).id@),
        forall|j: int|
            0 <= j < created.len() ==> exists|i: int|
                0 <= i < cs.len() && is_dir_of(#[trigger] cs[i], #[trigger] created[j]),
        id_names(created.map_values(|w: NewWorkspace| created_entry(w))).contains(p),
    ensures
        id_names(rebuilt_entries(cs)).contains(p),
{
    let reg = created.map_values(|w: NewWorkspace| created_entry(w));
    let rb = rebuilt_entries(cs);
    lemma_rebuilt_members(cs);
    let j = choose|j: int| 0 <= j < reg.len() && (#[trigger] reg[j]).id@ == p.0 && reg[j].name@ == p.1;
    assert(reg[j] == created_entry(created[j]));
    let k = choose|k: int| 0 <= k < cs.len() && is_dir_of(cs[k], created[j]);
    assert(is_uuid_text(created[j].id@));
    assert(admitted(cs[k]));
    let i = choose|i: int| 0 <= i < rb.len() && rb[i] == candidate_entry(cs[k]);
    assert(rb[i].id@ == p.0);
}

} // verus!
