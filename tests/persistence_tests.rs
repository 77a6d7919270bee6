use workspace_core::manager::new_workspace;
use workspace_core::persistence::{
    load_registry, rebuild_registry_from_disk, save_registry_plan, DirCandidate, ManifestProbe,
    SaveStep,
};
use workspace_core::schema::schema_statements;
use workspace_core::startup::{check_homebrew_database, detect_legacy_database, LegacyProbe};
use workspace_core::types::{DatabaseCheckResult, WorkspaceRegistry};

fn workspace_dir(name: &str) -> DirCandidate {
    let w = new_workspace(name.to_string(), "0.2.0".to_string());
    DirCandidate { name: Some(w.id), is_dir: true, manifest: ManifestProbe::Read(w.manifest) }
}

#[test]
fn rebuild_finds_valid_workspaces_only() {
    let a = workspace_dir("A");
    let b = workspace_dir("B");
    let c = workspace_dir("C");
    let ids = vec![a.name.clone().unwrap(), b.name.clone().unwrap(), c.name.clone().unwrap()];
    let mut file = workspace_dir("File");
    file.is_dir = false;
    let mut no_manifest = workspace_dir("Bare");
    no_manifest.manifest = ManifestProbe::Missing;
    let mut broken = workspace_dir("Broken");
    broken.manifest = ManifestProbe::Unreadable("bad json".to_string());
    let mut not_uuid = workspace_dir("Named");
    not_uuid.name = Some("not-a-uuid".to_string());
    let mut not_text = workspace_dir("Odd");
    not_text.name = None;
    let reg = rebuild_registry_from_disk(vec![file, a, no_manifest, b, broken, not_uuid, c, not_text]);
    assert_eq!(reg.version, 1);
    assert_eq!(reg.last_active, None);
    assert_eq!(reg.workspaces.len(), 3);
    let names: Vec<&str> = reg.workspaces.iter().map(|e| e.name.as_str()).collect();
    assert_eq!(names, vec!["A", "B", "C"]);
    let got: Vec<String> = reg.workspaces.iter().map(|e| e.id.clone()).collect();
    assert_eq!(got, ids);
}

#[test]
fn rebuild_of_empty_root_is_empty() {
    let reg = rebuild_registry_from_disk(vec![]);
    assert!(reg.workspaces.is_empty());
    assert_eq!(reg.version, 1);
}

#[test]
fn corrupt_registry_recovered_by_rebuild() {
    let loaded = load_registry(Some(Err("expected value at line 1".to_string())));
    assert!(loaded.workspaces.is_empty());
    assert_eq!(loaded.version, 1);
    assert_eq!(loaded.last_active, None);
    let reg = rebuild_registry_from_disk(vec![workspace_dir("X"), workspace_dir("Y"), workspace_dir("Z")]);
    assert_eq!(reg.workspaces.len(), 3);
}

#[test]
fn missing_registry_loads_empty() {
    let reg = load_registry(None);
    assert_eq!(reg.version, 1);
    assert!(reg.workspaces.is_empty());
    assert_eq!(reg.last_active, None);
    let d = WorkspaceRegistry::default();
    assert_eq!(d.version, 1);
    let mut given = WorkspaceRegistry::default();
    given.last_active = Some("q".to_string());
    assert_eq!(load_registry(Some(Ok(given))).last_active, Some("q".to_string()));
}

#[test]
fn save_writes_temporary_then_renames() {
    assert_eq!(save_registry_plan(), vec![SaveStep::WriteTemporary, SaveStep::RenameOverLive]);
}

#[test]
fn schema_split_skips_blank_and_comment_pieces() {
    let sql = "-- header\nCREATE TABLE a (x INT);\n\n  CREATE TABLE b (y TEXT)  ;\n-- only a comment\n;;   \n";
    assert_eq!(
        schema_statements(sql),
        vec!["-- header\nCREATE TABLE a (x INT)".to_string(), "CREATE TABLE b (y TEXT)".to_string()]
    );
    let sql = "CREATE TABLE a (x INT);\nCREATE INDEX i ON a(x)\n-- trailing note\n;";
    assert_eq!(
        schema_statements(sql),
        vec!["CREATE TABLE a (x INT)".to_string(), "CREATE INDEX i ON a(x)\n-- trailing note".to_string()]
    );
    assert!(schema_statements("").is_empty());
    assert!(schema_statements(" ; \n ;").is_empty());
    assert_eq!(schema_statements("PRAGMA x"), vec!["PRAGMA x".to_string()]);
    assert_eq!(schema_statements("--\nx"), vec!["--\nx".to_string()]);
    assert!(schema_statements("-- a\n  -- b\n\t;\n--c").is_empty());
}

#[test]
fn legacy_detection_order() {
    let probe = |is_file, ext, is_dir, direct, backend| LegacyProbe {
        is_file,
        has_db_extension: ext,
        is_dir,
        direct_db_path: "/p/meeting_minutes.db".to_string(),
        direct_db_is_file: direct,
        backend_db_path: "/p/backend/meeting_minutes.db".to_string(),
        backend_db_is_file: backend,
    };
    assert_eq!(detect_legacy_database("/p".to_string(), probe(true, true, false, false, false)), Some("/p".to_string()));
    assert_eq!(detect_legacy_database("/p".to_string(), probe(true, false, false, false, false)), None);
    assert_eq!(
        detect_legacy_database("/p".to_string(), probe(false, false, true, true, true)),
        Some("/p/meeting_minutes.db".to_string())
    );
    assert_eq!(
        detect_legacy_database("/p".to_string(), probe(false, false, true, false, true)),
        Some("/p/backend/meeting_minutes.db".to_string())
    );
    assert_eq!(detect_legacy_database("/p".to_string(), probe(false, false, false, true, true)), None);
}

#[test]
fn homebrew_database_needs_content() {
    assert_eq!(check_homebrew_database(true, Some(4096)), Some(DatabaseCheckResult { exists: true, size: 4096 }));
    assert_eq!(check_homebrew_database(true, Some(0)), None);
    assert_eq!(check_homebrew_database(true, None), None);
    assert_eq!(check_homebrew_database(false, Some(10)), None);
}

#[test]
fn rebuild_accepts_every_uuid_form() {
    let named = |n: &str| {
        let mut c = workspace_dir(n);
        c.name = Some(n.to_string());
        c
    };
    let reg = rebuild_registry_from_disk(vec![
        named("936DA01F-9ABD-4D9D-80C7-02AF85C822A8"),
        named("{936da01f-9abd-4d9d-80c7-02af85c822a8}"),
        named("URN:uuid:936da01f-9abd-4d9d-80c7-02af85c822a8"),
        named("936da01f9abd4d9d80c702af85c822a8"),
        named("936da01f-9abd-4d9d-80c7-02af85c822ag"),
        named("936da01f+9abd-4d9d-80c7-02af85c822a8"),
        named("global.sqlite"),
        named("workspaces.json"),
    ]);
    assert_eq!(reg.workspaces.len(), 4);
}
