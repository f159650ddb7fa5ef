use pulsar::install_command_flow::{
    emit_extraction_step_with, emit_install_step_with, extraction_step_payload,
    install_mod_from_archive_with, install_mod_from_archive_with_progress_events,
    install_step_payload,
};
use pulsar::install_finalize_flow::{conflict_staging_path, is_scan_all_selection};
use pulsar::install_orchestration::{
    apply_archive_decision, extraction_progress_step, make_progress_payload,
};
use pulsar::install_planning::{ArchiveDecision, FinalizeRequest};
use pulsar::models::{InstallProgressPayload, InstallationAnalysis};
use std::sync::{Arc, Mutex};

fn empty_analysis() -> InstallationAnalysis {
    InstallationAnalysis {
        successes: Vec::new(),
        conflicts: Vec::new(),
        messy_archive_path: None,
        active_archive_path: None,
        selection_needed: false,
        temp_id: None,
        available_folders: None,
    }
}

#[test]
fn install_progress_payload_helpers_build_expected_events() {
    let step = install_step_payload("download-1", "Initializing...");
    assert_eq!(step.id, "download-1");
    assert_eq!(step.step, "Initializing...");
    assert_eq!(step.progress, None);

    let extract = extraction_step_payload("download-1", 42);
    assert_eq!(extract.id, "download-1");
    assert_eq!(extract.step, "Extracting: 42%");
    assert_eq!(extract.progress, Some(42));

    let emitted = Arc::new(Mutex::new(Vec::<InstallProgressPayload>::new()));
    let emitted_step = emitted.clone();
    emit_install_step_with("download-2", "Copying to library...", move |payload| {
        emitted_step
            .lock()
            .expect("lock should succeed")
            .push(payload);
    });
    let emitted_extract = emitted.clone();
    emit_extraction_step_with("download-2", 77, move |payload| {
        emitted_extract
            .lock()
            .expect("lock should succeed")
            .push(payload);
    });

    let events = emitted.lock().expect("lock should succeed");
    assert_eq!(events.len(), 2);
    assert_eq!(events[0].step, "Copying to library...");
    assert_eq!(events[0].progress, None);
    assert_eq!(events[1].step, "Extracting: 77%");
    assert_eq!(events[1].progress, Some(77));
}

#[test]
fn scan_all_selection_detects_empty_and_dot() {
    assert!(is_scan_all_selection(&[]));
    assert!(is_scan_all_selection(&[".".to_string()]));
    assert!(!is_scan_all_selection(&["mod_a".to_string()]));
}

#[test]
fn conflict_staging_path_formats_with_timestamp() {
    let path = conflict_staging_path("/tmp/staging", 12345);
    assert_eq!(path, "/tmp/staging/conflict_12345");
}

#[test]
fn conflict_staging_path_formats_negative_timestamps() {
    assert_eq!(conflict_staging_path("/s", -7), "/s/conflict_-7");
    assert_eq!(conflict_staging_path("/s/", 0), "/s/conflict_0");
}

#[test]
fn make_progress_payload_sets_fields() {
    let payload = make_progress_payload("d1", "Initializing...".to_string(), Some(10));
    assert_eq!(payload.id, "d1");
    assert_eq!(payload.step, "Initializing...");
    assert_eq!(payload.progress, Some(10));
}

#[test]
fn make_progress_payload_allows_missing_progress() {
    let payload = make_progress_payload("d2", "Waiting...".to_string(), None);
    assert_eq!(payload.id, "d2");
    assert_eq!(payload.step, "Waiting...");
    assert_eq!(payload.progress, None);
}

#[test]
fn extraction_progress_step_formats_percent() {
    assert_eq!(extraction_progress_step(42), "Extracting: 42%");
}

#[test]
fn apply_archive_decision_wait_for_selection_emits_and_returns_analysis() {
    let mut analysis = empty_analysis();
    analysis.selection_needed = true;
    let mut steps = Vec::new();

    let out = apply_archive_decision(
        "lib-id".to_string(),
        ArchiveDecision::WaitForSelection(analysis),
        "archive.zip".to_string(),
        |step: &str| steps.push(step.to_string()),
        |_library_id, _selected_folders, _flatten| {
            Err("finalizer should not be called".to_string())
        },
    )
    .expect("wait-for-selection should return analysis");

    assert_eq!(steps, vec!["Waiting for selection..."]);
    assert!(out.selection_needed);
    assert!(out.active_archive_path.is_none());
}

#[test]
fn apply_archive_decision_finalize_calls_finalizer_and_sets_archive_path() {
    let decision = ArchiveDecision::Finalize(FinalizeRequest {
        selected_folders: vec!["folder-a".to_string()],
        flatten_paths: true,
    });
    let mut steps = Vec::new();

    let out = apply_archive_decision(
        "lib-id".to_string(),
        decision,
        "/tmp/archive.zip".to_string(),
        |step: &str| steps.push(step.to_string()),
        |library_id, selected_folders, flatten_paths| {
            assert_eq!(library_id, "lib-id");
            assert_eq!(selected_folders, vec!["folder-a".to_string()]);
            assert!(flatten_paths);
            Ok(empty_analysis())
        },
    )
    .expect("finalize should succeed");

    assert_eq!(steps, vec!["Finalizing..."]);
    assert_eq!(out.active_archive_path.as_deref(), Some("/tmp/archive.zip"));
}

#[test]
fn apply_archive_decision_propagates_finalizer_error() {
    let decision = ArchiveDecision::Finalize(FinalizeRequest {
        selected_folders: vec![],
        flatten_paths: false,
    });

    let result = apply_archive_decision(
        "lib-id".to_string(),
        decision,
        "archive.zip".to_string(),
        |_step: &str| {},
        |_library_id, _selected_folders, _flatten| Err("boom".to_string()),
    );

    match result {
        Err(err) => assert_eq!(err, "boom"),
        Ok(_) => panic!("expected finalizer error to propagate"),
    }
}

#[test]
fn install_mod_from_archive_with_finalizes_single_mod_root() {
    let steps = Arc::new(Mutex::new(Vec::<String>::new()));
    let steps_in = steps.clone();
    let calls = Arc::new(Mutex::new(Vec::<String>::new()));
    let (c1, c2, c3, c4) = (calls.clone(), calls.clone(), calls.clone(), calls.clone());
    let out = install_mod_from_archive_with(
        "file:///tmp/Ship%20Pack.zip".to_string(),
        || Ok("/downloads".to_string()),
        || Ok("/library".to_string()),
        move |s: &str| steps_in.lock().unwrap().push(s.to_string()),
        move |a: &str, b: &str| {
            c1.lock().unwrap().push(format!("copy {a} {b}"));
            Ok("/downloads/Ship Pack.zip".to_string())
        },
        move |a: &str, b: &str| {
            c2.lock().unwrap().push(format!("extract {a} {b}"));
            Ok(())
        },
        move |a: &str| {
            c3.lock().unwrap().push(format!("scan {a}"));
            Ok((vec!["Ship".to_string()], vec!["Ship".to_string()]))
        },
        move |id: String, folders: Vec<String>, flatten: bool| {
            c4.lock().unwrap().push(format!("finalize {id} {} {flatten}", folders.join(",")));
            Ok(empty_analysis())
        },
    )
    .expect("install should succeed");
    assert!(!out.selection_needed);
    assert_eq!(out.active_archive_path.as_deref(), Some("/downloads/Ship Pack.zip"));
    assert_eq!(
        *steps.lock().unwrap(),
        vec!["Initializing...", "Copying to library...", "Analyzing structure...", "Finalizing..."]
    );
    assert_eq!(
        *calls.lock().unwrap(),
        vec![
            "copy /tmp/Ship Pack.zip /downloads",
            "extract /downloads/Ship Pack.zip /library/Ship Pack.zip_unpacked",
            "scan /library/Ship Pack.zip_unpacked",
            "finalize Ship Pack.zip_unpacked Ship true",
        ]
    );
}

#[test]
fn install_mod_from_archive_with_waits_for_selection_and_stops_on_errors() {
    let steps = Arc::new(Mutex::new(Vec::<String>::new()));
    let steps_in = steps.clone();
    let out = install_mod_from_archive_with(
        "/tmp/a.zip".to_string(),
        || Ok("/downloads".to_string()),
        || Ok("/library".to_string()),
        move |s: &str| steps_in.lock().unwrap().push(s.to_string()),
        |_a: &str, _b: &str| Ok("/downloads/a.zip".to_string()),
        |_a: &str, _b: &str| Ok(()),
        |_a: &str| Ok((Vec::new(), vec!["A".to_string(), "B".to_string()])),
        |_id: String, _f: Vec<String>, _b: bool| -> Result<InstallationAnalysis, String> {
            panic!("finalize should not be called")
        },
    )
    .expect("selection should be requested");
    assert!(out.selection_needed);
    assert_eq!(out.temp_id.as_deref(), Some("a.zip_unpacked"));
    assert_eq!(out.available_folders, Some(vec!["A".to_string(), "B".to_string()]));
    assert_eq!(steps.lock().unwrap().last().map(String::as_str), Some("Waiting for selection..."));

    let steps = Arc::new(Mutex::new(Vec::<String>::new()));
    let steps_in = steps.clone();
    let err = install_mod_from_archive_with(
        "/tmp/a.zip".to_string(),
        || Ok("/downloads".to_string()),
        || Ok("/library".to_string()),
        move |s: &str| steps_in.lock().unwrap().push(s.to_string()),
        |_a: &str, _b: &str| Ok("/downloads/a.zip".to_string()),
        |_a: &str, _b: &str| Err("extract failed".to_string()),
        |_a: &str| -> Result<(Vec<String>, Vec<String>), String> { panic!("scan should not run") },
        |_id: String, _f: Vec<String>, _b: bool| -> Result<InstallationAnalysis, String> {
            panic!("finalize should not be called")
        },
    )
    .expect_err("extraction error should propagate");
    assert_eq!(err, "extract failed");
    assert_eq!(*steps.lock().unwrap(), vec!["Initializing...", "Copying to library..."]);

    let err = install_mod_from_archive_with(
        "/tmp/a.zip".to_string(),
        || Err("downloads err".to_string()),
        || Ok("/library".to_string()),
        |_s: &str| {},
        |_a: &str, _b: &str| -> Result<String, String> { panic!("copy should not run") },
        |_a: &str, _b: &str| Ok(()),
        |_a: &str| Ok((Vec::new(), Vec::new())),
        |_id: String, _f: Vec<String>, _b: bool| Ok(empty_analysis()),
    )
    .expect_err("downloads error should propagate");
    assert_eq!(err, "downloads err");
}

#[test]
fn install_mod_from_archive_with_progress_events_tags_steps_with_download_id() {
    let events = Arc::new(Mutex::new(Vec::<InstallProgressPayload>::new()));
    let events_in = events.clone();
    let out = install_mod_from_archive_with_progress_events(
        "/tmp/a.zip".to_string(),
        "dl-7".to_string(),
        || Ok("/downloads".to_string()),
        || Ok("/library".to_string()),
        move |p: InstallProgressPayload| events_in.lock().unwrap().push(p),
        |_a: &str, _b: &str| Ok("/downloads/a.zip".to_string()),
        |_a: &str, _b: &str| Ok(()),
        |_a: &str| Ok((Vec::new(), Vec::new())),
        |_id: String, folders: Vec<String>, flatten: bool| {
            assert!(folders.is_empty());
            assert!(!flatten);
            Ok(empty_analysis())
        },
    )
    .expect("install should succeed");
    assert_eq!(out.active_archive_path.as_deref(), Some("/downloads/a.zip"));
    let events = events.lock().unwrap();
    assert_eq!(events.len(), 4);
    assert!(events.iter().all(|e| e.id == "dl-7" && e.progress.is_none()));
    assert_eq!(events[0].step, "Initializing...");
    assert_eq!(events[3].step, "Finalizing...");
}
