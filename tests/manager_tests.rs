use workspace_core::manager::{
    check_first_launch, new_workspace, ManagerError, SwitchTarget, WorkspaceManager,
};
use workspace_core::persistence::{rebuild_registry_from_disk, DirCandidate, ManifestProbe};
use workspace_core::startup::{plan_after_migration, plan_startup, StartupPlan, DEFAULT_WORKSPACE_NAME};
use workspace_core::types::{WorkspaceEntry, WorkspaceRegistry};

fn empty_manager() -> WorkspaceManager<u32> {
    WorkspaceManager::new("/data/workspaces".to_string(), 7, WorkspaceRegistry::default())
}

#[test]
fn new_manager_has_nothing_active() {
    let m = empty_manager();
    assert_eq!(m.active_workspace_id(), None);
    assert!(matches!(m.active_pool(), Err(ManagerError::NoActiveWorkspace)));
    assert_eq!(*m.global_pool(), 7);
    assert_eq!(m.workspaces_root(), "/data/workspaces");
    assert_eq!(m.last_active_id(), None);
    assert!(m.list_workspaces().is_empty());
}

#[test]
fn create_appends_entry_without_activating() {
    let mut m = empty_manager();
    let a = new_workspace("Work".to_string(), "0.2.0".to_string());
    let b = new_workspace("Home".to_string(), "0.2.0".to_string());
    let id_a = m.create_workspace(&a);
    let id_b = m.create_workspace(&b);
    assert_eq!(id_a, a.id);
    assert_eq!(id_b, b.id);
    assert_ne!(id_a, id_b);
    let list = m.list_workspaces();
    assert_eq!(list.len(), 2);
    assert_eq!(list[0].id, id_a);
    assert_eq!(list[0].name, "Work");
    assert_eq!(list[0].icon, None);
    assert_eq!(list[1].id, id_b);
    assert_eq!(list[1].name, "Home");
    assert_eq!(m.active_workspace_id(), None);
    assert_eq!(m.last_active_id(), None);
}

#[test]
fn new_workspace_writes_fresh_manifest() {
    let w = new_workspace("Research".to_string(), "1.4.2".to_string());
    assert_eq!(w.id.len(), 36);
    assert_eq!(w.manifest.version, 1);
    assert_eq!(w.manifest.name, "Research");
    assert_eq!(w.manifest.icon, None);
    assert_eq!(w.manifest.accent_color, None);
    assert_eq!(w.manifest.description, None);
    assert_eq!(w.manifest.app_version, Some("1.4.2".to_string()));
    assert!(!w.manifest.created_at.is_empty());
    assert_eq!(w.manifest.created_at, w.manifest.last_modified);
}

#[test]
fn switch_then_close_keeps_state_consistent() {
    let mut m = empty_manager();
    let w = new_workspace("Work".to_string(), "0.2.0".to_string());
    let id = m.create_workspace(&w);
    assert!(m.switch_workspace(id.clone(), SwitchTarget::Opened(42)).is_ok());
    assert_eq!(m.active_workspace_id(), Some(id.clone()));
    assert!(matches!(m.active_pool(), Ok(&42)));
    assert_eq!(m.last_active_id(), Some(id.clone()));
    assert_eq!(m.registry_snapshot().last_active, Some(id.clone()));
    let closed = m.close_active_workspace();
    assert_eq!(closed, Some(42));
    assert_eq!(m.active_workspace_id(), None);
    assert!(matches!(m.active_pool(), Err(ManagerError::NoActiveWorkspace)));
    assert_eq!(m.last_active_id(), Some(id));
    assert_eq!(m.close_active_workspace(), None);
}

#[test]
fn switch_to_missing_directory_fails_and_leaves_nothing_active() {
    let mut m = empty_manager();
    let w = new_workspace("Work".to_string(), "0.2.0".to_string());
    let id = m.create_workspace(&w);
    assert!(m.switch_workspace(id.clone(), SwitchTarget::Opened(1)).is_ok());
    let previous = m.close_active_workspace();
    assert_eq!(previous, Some(1));
    let r = m.switch_workspace("00000000-0000-4000-8000-000000000000".to_string(), SwitchTarget::DirectoryMissing);
    assert!(matches!(r, Err(ManagerError::DirectoryMissing)));
    assert_eq!(m.active_workspace_id(), None);
    assert!(m.active_pool().is_err());
    assert_eq!(m.last_active_id(), Some(id));
    assert_eq!(m.list_workspaces().len(), 1);
}

#[test]
fn switch_without_manifest_or_database_fails() {
    let mut m = empty_manager();
    let r = m.switch_workspace("x".to_string(), SwitchTarget::ManifestMissing);
    assert!(matches!(r, Err(ManagerError::ManifestMissing)));
    let r = m.switch_workspace("x".to_string(), SwitchTarget::OpenFailed("locked".to_string()));
    match r {
        Err(ManagerError::DatabaseFailed(msg)) => assert_eq!(msg, "locked"),
        _ => panic!("expected a database failure"),
    }
    assert_eq!(m.active_workspace_id(), None);
    assert_eq!(m.last_active_id(), None);
}

#[test]
fn fresh_install_creates_single_active_default() {
    let mut m = empty_manager();
    assert!(check_first_launch(&m));
    assert!(matches!(plan_startup(&m, false), StartupPlan::CreateDefault));
    let w = new_workspace(DEFAULT_WORKSPACE_NAME.to_string(), "0.2.0".to_string());
    let id = m.create_workspace(&w);
    assert!(m.switch_workspace(id.clone(), SwitchTarget::Opened(3)).is_ok());
    let list = m.list_workspaces();
    assert_eq!(list.len(), 1);
    assert_eq!(list[0].name, "Default");
    assert_eq!(m.active_workspace_id(), Some(id));
    assert!(!check_first_launch(&m));
}

#[test]
fn startup_plan_prefers_migration_then_last_active_then_first() {
    let m = empty_manager();
    assert!(matches!(plan_startup(&m, true), StartupPlan::Migrate));
    let reg = WorkspaceRegistry {
        version: 1,
        workspaces: vec![
            WorkspaceEntry { id: "a".to_string(), name: "A".to_string(), icon: None },
            WorkspaceEntry { id: "b".to_string(), name: "B".to_string(), icon: None },
        ],
        last_active: Some("b".to_string()),
    };
    let m = WorkspaceManager::new("/r".to_string(), 0u32, reg);
    match plan_startup(&m, true) {
        StartupPlan::Resume(id) => assert_eq!(id, "b"),
        _ => panic!("expected resume"),
    }
    let reg = WorkspaceRegistry {
        version: 1,
        workspaces: vec![WorkspaceEntry { id: "a".to_string(), name: "A".to_string(), icon: None }],
        last_active: None,
    };
    let m = WorkspaceManager::new("/r".to_string(), 0u32, reg);
    match plan_startup(&m, false) {
        StartupPlan::Resume(id) => assert_eq!(id, "a"),
        _ => panic!("expected resume"),
    }
}

#[test]
fn created_workspaces_survive_rebuild() {
    let mut m = empty_manager();
    let mut created = Vec::new();
    for name in ["One", "Two", "Three"] {
        let w = new_workspace(name.to_string(), "0.2.0".to_string());
        m.create_workspace(&w);
        created.push(w);
    }
    let mut candidates = Vec::new();
    for w in created.iter().rev() {
        candidates.push(DirCandidate {
            name: Some(w.id.clone()),
            is_dir: true,
            manifest: ManifestProbe::Read(w.manifest.clone()),
        });
    }
    let rebuilt = rebuild_registry_from_disk(candidates);
    let mut got: Vec<(String, String)> =
        rebuilt.workspaces.iter().map(|e| (e.id.clone(), e.name.clone())).collect();
    let mut want: Vec<(String, String)> =
        m.list_workspaces().iter().map(|e| (e.id.clone(), e.name.clone())).collect();
    got.sort();
    want.sort();
    assert_eq!(got, want);
}

#[test]
fn failed_migration_falls_back_to_default() {
    assert!(plan_after_migration(&Ok("id".to_string())).is_none());
    assert!(matches!(
        plan_after_migration(&Err("copy failed".to_string())),
        Some(StartupPlan::CreateDefault)
    ));
}
