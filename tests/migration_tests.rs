use workspace_core::migration::{
    backup_plan, count_accessible, global_only_tables, integrity_outcome, media_outcome,
    step_at_index, Advisory, DatabaseFile, MigrationRun, MigrationStep, StepOutcome, STEP_COUNT,
};
use workspace_core::partition::{
    license_row, license_rows, settings_row, settings_rows, transcript_rows, LegacyLicenseRow,
    LegacySettingsRow, LegacyTranscriptRow, DEFAULT_GRACE_PERIOD,
};

fn s(v: &str) -> Option<String> {
    Some(v.to_string())
}

#[test]
fn steps_run_in_fixed_order() {
    assert_eq!(STEP_COUNT, 9);
    assert_eq!(step_at_index(0), Some(MigrationStep::Backup));
    assert_eq!(step_at_index(2), Some(MigrationStep::CreateTarget));
    assert_eq!(step_at_index(6), Some(MigrationStep::VerifyMedia));
    assert_eq!(step_at_index(7), Some(MigrationStep::Activate));
    assert_eq!(step_at_index(8), Some(MigrationStep::VerifyIntegrity));
    assert_eq!(step_at_index(9), None);
}

#[test]
fn all_steps_done_completes_run() {
    let mut run = MigrationRun::new();
    let mut seen = Vec::new();
    while let Some(step) = run.next_step() {
        seen.push(step);
        run.record(StepOutcome::Done);
    }
    assert_eq!(seen.len(), 9);
    assert_eq!(seen[0], MigrationStep::Backup);
    assert_eq!(seen[8], MigrationStep::VerifyIntegrity);
    assert!(run.is_complete());
    assert!(run.failure().is_none());
    assert!(run.warnings().is_empty());
}

#[test]
fn fatal_step_stops_run() {
    let mut run = MigrationRun::new();
    run.record(StepOutcome::Done);
    run.record(StepOutcome::Done);
    assert_eq!(run.steps_done(), 2);
    assert_eq!(run.next_step(), Some(MigrationStep::CreateTarget));
    run.record(StepOutcome::Failed("disk full".to_string()));
    assert_eq!(run.next_step(), None);
    assert!(!run.is_complete());
    let f = run.failure().clone().unwrap();
    assert_eq!(f.step, MigrationStep::CreateTarget);
    assert_eq!(f.message, "disk full");
}

#[test]
fn backup_failure_stops_before_anything_else() {
    let mut run = MigrationRun::new();
    run.record(StepOutcome::Failed("no space".to_string()));
    assert_eq!(run.next_step(), None);
    assert_eq!(run.failure().clone().unwrap().step, MigrationStep::Backup);
}

#[test]
fn advisory_steps_never_stop_run() {
    let mut run = MigrationRun::new();
    for _ in 0..6 {
        run.record(StepOutcome::Done);
    }
    assert_eq!(run.next_step(), Some(MigrationStep::VerifyMedia));
    run.record(StepOutcome::Failed("query failed".to_string()));
    assert_eq!(run.next_step(), Some(MigrationStep::Activate));
    run.record(StepOutcome::Done);
    run.record(integrity_outcome(5, 4));
    assert!(run.is_complete());
    let w = run.warnings();
    assert_eq!(w.len(), 2);
    assert_eq!(w[0].step, MigrationStep::VerifyMedia);
    assert!(matches!(&w[0].advisory, Advisory::CheckFailed(m) if m == "query failed"));
    assert_eq!(w[1].step, MigrationStep::VerifyIntegrity);
    assert!(matches!(w[1].advisory, Advisory::CountMismatch { original: 5, workspace: 4 }));
}

#[test]
fn activation_failure_is_fatal() {
    let mut run = MigrationRun::new();
    for _ in 0..7 {
        run.record(StepOutcome::Done);
    }
    run.record(StepOutcome::Failed("no manifest".to_string()));
    assert_eq!(run.failure().clone().unwrap().step, MigrationStep::Activate);
    assert_eq!(run.next_step(), None);
}

#[test]
fn outcomes_of_checks() {
    assert!(matches!(media_outcome(3, 0), StepOutcome::Done));
    assert!(matches!(media_outcome(1, 2), StepOutcome::Warning(Advisory::InaccessibleMedia(2))));
    assert!(matches!(integrity_outcome(5, 5), StepOutcome::Done));
    assert_eq!(count_accessible(&vec![true, false, true, true]), (3, 1));
    assert_eq!(count_accessible(&vec![]), (0, 0));
}

#[test]
fn backup_covers_existing_sidecars() {
    assert_eq!(backup_plan(false, false), vec![DatabaseFile::Main]);
    assert_eq!(
        backup_plan(true, true),
        vec![DatabaseFile::Main, DatabaseFile::WriteAheadLog, DatabaseFile::SharedMemory]
    );
    assert_eq!(backup_plan(false, true), vec![DatabaseFile::Main, DatabaseFile::SharedMemory]);
    assert_eq!(DatabaseFile::Main.backup_extension(), "sqlite.pre-workspace-backup");
    assert_eq!(DatabaseFile::WriteAheadLog.extension(), "sqlite-wal");
    assert_eq!(DatabaseFile::SharedMemory.backup_extension(), "sqlite-shm.pre-workspace-backup");
}

#[test]
fn dropped_tables_are_global_ones() {
    assert_eq!(
        global_only_tables(),
        vec!["settings", "transcript_settings", "licensing", "custom_openai_config", "_sqlx_migrations"]
    );
}

fn legacy_settings(id: Option<String>) -> LegacySettingsRow {
    LegacySettingsRow {
        id,
        provider: s("ollama"),
        model: None,
        whisper_model: s("large-v3"),
        groq_api_key: None,
        openai_api_key: s("SECRET-REDACTED"),
        anthropic_api_key: None,
        ollama_api_key: None,
        open_router_api_key: None,
        ollama_endpoint: s("http://localhost:11434"),
        custom_openai_config: None,
        gemini_api_key: None,
    }
}

#[test]
fn settings_row_defaults_missing_columns() {
    let r = settings_row(legacy_settings(s("1")));
    assert_eq!(r.id, "1");
    assert_eq!(r.provider, "ollama");
    assert_eq!(r.model, "");
    assert_eq!(r.whisper_model, "large-v3");
    assert_eq!(r.openai_api_key, s("SECRET-REDACTED"));
    assert_eq!(r.groq_api_key, None);
    assert_eq!(r.ollama_endpoint, s("http://localhost:11434"));
    let r = settings_row(legacy_settings(None));
    assert_eq!(r.id, "");
}

#[test]
fn single_settings_row_is_carried_over() {
    let rows = settings_rows(vec![legacy_settings(s("1"))]);
    assert_eq!(rows.len(), 1);
    assert_eq!(rows[0].id, "1");
}

#[test]
fn rows_keep_order_and_count() {
    let rows = settings_rows(vec![legacy_settings(s("a")), legacy_settings(None), legacy_settings(s("c"))]);
    let ids: Vec<&str> = rows.iter().map(|r| r.id.as_str()).collect();
    assert_eq!(ids, vec!["a", "", "c"]);
    let ts = transcript_rows(vec![LegacyTranscriptRow {
        id: s("1"),
        provider: None,
        model: s("parakeet"),
        whisper_api_key: None,
        deepgram_api_key: s("dg"),
        eleven_labs_api_key: None,
        groq_api_key: None,
        openai_api_key: None,
    }]);
    assert_eq!(ts.len(), 1);
    assert_eq!(ts[0].provider, "");
    assert_eq!(ts[0].model, "parakeet");
    assert_eq!(ts[0].deepgram_api_key, s("dg"));
    assert!(license_rows(vec![]).is_empty());
}

#[test]
fn license_row_defaults() {
    let r = license_row(LegacyLicenseRow {
        license_key: s("K"),
        encrypted_key: None,
        signature_hash: None,
        activation_date: None,
        expiry_date: None,
        soft_expiry_date: None,
        max_activation_time: None,
        duration: None,
        generated_on: None,
        is_soft_expired: None,
        grace_period: None,
    });
    assert_eq!(r.license_key, "K");
    assert_eq!(r.encrypted_key, "");
    assert_eq!(r.duration, 0);
    assert_eq!(r.is_soft_expired, 0);
    assert_eq!(r.grace_period, 604800);
    assert_eq!(DEFAULT_GRACE_PERIOD, 604800);
}
