use pulsar::install::{
    finalize_installation_command_with, finalize_installation_with_provider,
    get_all_mods_for_render_command_with, get_all_mods_for_render_with_provider,
    get_staging_dir_command_with, get_staging_dir_with_provider,
    install_mod_from_archive_command_with, install_mod_from_archive_with_provider,
    resolve_conflict_command_with, resolve_conflict_with_provider,
};
use pulsar::models::{InstallProgressPayload, InstallationAnalysis};
use std::sync::{Arc, Mutex};

fn empty_analysis() -> InstallationAnalysis {
    InstallationAnalysis {
        successes: vec![],
        conflicts: vec![],
        messy_archive_path: None,
        active_archive_path: None,
        selection_needed: false,
        temp_id: None,
        available_folders: None,
    }
}

#[test]
fn resolve_conflict_with_provider_forwards_arguments() {
    let mut called = false;
    resolve_conflict_with_provider(
        "New",
        "Old",
        "/tmp/staging/New",
        true,
        || Some("/game".to_string()),
        |game_path: &str, new_name: &str, old_name: &str, temp_path: &str, replace: bool| {
            called = true;
            assert_eq!(game_path, "/game/GAMEDATA/MODS");
            assert_eq!(new_name, "New");
            assert_eq!(old_name, "Old");
            assert_eq!(temp_path, "/tmp/staging/New");
            assert!(replace);
            Ok(())
        },
    )
    .expect("expected resolve forwarding");
    assert!(called);
}

#[test]
fn resolve_conflict_with_provider_propagates_game_path_and_resolver_errors() {
    let missing = resolve_conflict_with_provider(
        "New",
        "Old",
        "/tmp/staging/New",
        false,
        || None,
        |_game_path: &str, _new_name: &str, _old_name: &str, _temp_path: &str, _replace: bool| Ok(()),
    );
    assert_eq!(
        missing.unwrap_err(),
        "Could not find game path.".to_string()
    );

    let resolver_err = resolve_conflict_with_provider(
        "New",
        "Old",
        "/tmp/staging/New",
        false,
        || Some("/game".to_string()),
        |_game_path: &str, _new_name: &str, _old_name: &str, _temp_path: &str, _replace: bool| {
            Err("resolver failed".to_string())
        },
    );
    assert_eq!(resolver_err.unwrap_err(), "resolver failed");
}

#[test]
fn install_wrapper_sync_helpers_forward_success_and_error() {
    let staging_ok =
        get_staging_dir_with_provider(|| Ok("/tmp/staging".to_string())).expect("staging");
    assert_eq!(staging_ok, "/tmp/staging");
    assert_eq!(
        get_staging_dir_with_provider(|| Err("staging err".to_string())).unwrap_err(),
        "staging err"
    );

    let render_ok = get_all_mods_for_render_with_provider(|| Ok(Vec::new())).expect("render list");
    assert!(render_ok.is_empty());
    match get_all_mods_for_render_with_provider(|| Err("render err".to_string())) {
        Ok(_) => panic!("expected render error"),
        Err(err) => assert_eq!(err, "render err"),
    }

    let staging_ok =
        get_staging_dir_command_with(|| Ok("/tmp/staging2".to_string())).expect("staging");
    assert_eq!(staging_ok, "/tmp/staging2");
    assert_eq!(
        get_staging_dir_command_with(|| Err("staging cmd err".to_string())).unwrap_err(),
        "staging cmd err"
    );

    let render_ok = get_all_mods_for_render_command_with(|| Ok(Vec::new())).expect("render list");
    assert!(render_ok.is_empty());
    match get_all_mods_for_render_command_with(|| Err("render cmd err".to_string())) {
        Ok(_) => panic!("expected render error"),
        Err(err) => assert_eq!(err, "render cmd err"),
    }
}

#[test]
fn finalize_installation_with_provider_forwards_inputs_and_results() {
    let result = finalize_installation_with_provider(
        &"runtime",
        "lib-1".to_string(),
        vec!["A".to_string(), "B".to_string()],
        true,
        |runtime: &&str, library_id, selected_folders, flatten_paths| {
            assert_eq!(*runtime, "runtime");
            assert_eq!(library_id, "lib-1");
            assert_eq!(selected_folders, vec!["A".to_string(), "B".to_string()]);
            assert!(flatten_paths);
            Ok(empty_analysis())
        },
    )
    .expect("expected finalize success");
    assert!(!result.selection_needed);

    let err = finalize_installation_with_provider(
        &(),
        "lib-2".to_string(),
        vec![],
        false,
        |_runtime: &(), _library_id, _selected_folders, _flatten_paths| Err("finalize err".to_string()),
    );
    match err {
        Ok(_) => panic!("expected finalize error"),
        Err(msg) => assert_eq!(msg, "finalize err"),
    }
}

#[test]
fn install_command_wrappers_forward_arguments_and_results() {
    let out = finalize_installation_command_with(
        &"runtime",
        "lib-9".to_string(),
        vec!["A".to_string()],
        false,
        |runtime: &&str, library_id, selected_folders, flatten_paths| {
            assert_eq!(*runtime, "runtime");
            assert_eq!(library_id, "lib-9");
            assert_eq!(selected_folders, vec!["A".to_string()]);
            assert!(!flatten_paths);
            Ok(empty_analysis())
        },
    )
    .expect("finalize command wrapper");
    assert!(!out.selection_needed);

    resolve_conflict_command_with(
        "New",
        "Old",
        "/tmp/staging/New",
        true,
        || Some("/game".to_string()),
        |game_path: &str, new_name: &str, old_name: &str, temp_path: &str, replace: bool| {
            assert_eq!(game_path, "/game/GAMEDATA/MODS");
            assert_eq!(new_name, "New");
            assert_eq!(old_name, "Old");
            assert_eq!(temp_path, "/tmp/staging/New");
            assert!(replace);
            Ok(())
        },
    )
    .expect("resolve command wrapper");
}

#[test]
fn install_mod_from_archive_with_provider_forwards_arguments() {
    let out = install_mod_from_archive_with_provider(
        "/tmp/mod.zip".to_string(),
        "download-1".to_string(),
        |archive: String, download: String| {
            assert_eq!(archive, "/tmp/mod.zip");
            assert_eq!(download, "download-1");
            Ok(InstallationAnalysis {
                successes: vec![],
                conflicts: vec![],
                messy_archive_path: None,
                active_archive_path: None,
                selection_needed: true,
                temp_id: Some("temp".to_string()),
                available_folders: Some(vec!["A".to_string()]),
            })
        },
    )
    .expect("install provider should succeed");
    assert!(out.selection_needed);

    let err = install_mod_from_archive_with_provider(
        "/tmp/mod.zip".to_string(),
        "download-2".to_string(),
        |_archive: String, _download: String| Err("install err".to_string()),
    );
    match err {
        Ok(_) => panic!("expected install error"),
        Err(msg) => assert_eq!(msg, "install err"),
    }
}

#[test]
fn install_mod_from_archive_command_with_emits_progress_and_forwards_errors() {
    let emitted = Arc::new(Mutex::new(Vec::<InstallProgressPayload>::new()));
    let emitted_out = emitted.clone();
    let out = install_mod_from_archive_command_with(
        "/tmp/anything.zip".to_string(),
        "download-xyz".to_string(),
        || Err("downloads unavailable".to_string()),
        || Ok("/tmp/library".to_string()),
        move |payload: InstallProgressPayload| {
            emitted_out.lock().expect("lock should succeed").push(payload)
        },
        |_a: &str, _b: &str| Ok("/tmp/downloads/anything.zip".to_string()),
        |_a: &str, _b: &str| Ok(()),
        |_a: &str| Ok((Vec::new(), Vec::new())),
        |_library_id: String, _selected_folders: Vec<String>, _flatten_paths: bool| {
            Err("finalize should not be called".to_string())
        },
    );
    let err = match out {
        Ok(_) => panic!("expected install error"),
        Err(err) => err,
    };
    assert_eq!(err, "downloads unavailable");
    let events = emitted.lock().expect("lock should succeed");
    assert_eq!(events.len(), 1);
    assert_eq!(events[0].id, "download-xyz");
    assert_eq!(events[0].step, "Initializing...");
    assert_eq!(events[0].progress, None);
}

#[test]
fn install_mod_from_archive_command_with_propagates_library_dir_error() {
    let emitted = Arc::new(Mutex::new(Vec::<InstallProgressPayload>::new()));
    let emitted_out = emitted.clone();
    let out = install_mod_from_archive_command_with(
        "/tmp/archive.zip".to_string(),
        "download-library-fail".to_string(),
        || Ok("/tmp/downloads".to_string()),
        || Err("library unavailable".to_string()),
        move |payload: InstallProgressPayload| {
            emitted_out.lock().expect("lock should succeed").push(payload)
        },
        |_a: &str, _b: &str| -> Result<String, String> { panic!("no copy without a library") },
        |_a: &str, _b: &str| Ok(()),
        |_a: &str| Ok((Vec::new(), Vec::new())),
        |_library_id: String, _selected_folders: Vec<String>, _flatten_paths: bool| {
            Err("finalize should not be called".to_string())
        },
    );
    assert_eq!(out.err().as_deref(), Some("library unavailable"));
    assert_eq!(emitted.lock().expect("lock should succeed").len(), 1);
}
