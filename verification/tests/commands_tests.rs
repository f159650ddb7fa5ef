use pulsar::commands::{
    build_ensure_mod_info_input, delete_mod_command_with, delete_mod_with_deps,
    delete_request_log_message, download_mod_archive_command_with, download_mod_archive_with,
    download_request_log_message, ensure_mod_info_command_with,
    ensure_mod_info_with, rename_mod_folder_command_with, rename_mod_folder_with_deps,
    rename_request_log_message, reorder_mods_command_with, reorder_mods_with,
    update_mod_id_in_json_command_with, update_mod_id_in_json_with,
    update_mod_name_in_xml_command_with, update_mod_name_in_xml_with,
};
use pulsar::command_download_ops::{ensure_success_status, progress_payload};
use pulsar::command_logic::{build_download_result, map_update_mod_id_error, mod_info_path_for};
use pulsar::command_ops::{
    library_rename_paths, mod_folder_path, mods_root_from_game_path, validate_rename_paths,
    LibraryRenameSync,
};
use pulsar::models::{DownloadResult, ModInfo, ModRenderData};
use std::cell::RefCell;

#[test]
fn mod_commands_wrapper_builds_expected_log_messages() {
    assert_eq!(
        rename_request_log_message("Old", "New"),
        "Requesting rename: 'Old' -> 'New'"
    );
    assert_eq!(
        delete_request_log_message("MyMod"),
        "Requesting deletion of mod: MyMod"
    );
    assert_eq!(
        download_request_log_message("a.zip"),
        "Starting download request for: a.zip"
    );
}

#[test]
fn build_ensure_mod_info_input_sets_fields() {
    let input = build_ensure_mod_info_input(
        "1".to_string(),
        "2".to_string(),
        "3.0".to_string(),
        "archive.zip".to_string(),
    );
    assert_eq!(input.mod_id, "1");
    assert_eq!(input.file_id, "2");
    assert_eq!(input.version, "3.0");
    assert_eq!(input.install_source, "archive.zip");
}

#[test]
fn reorder_mods_with_forwards_arguments() {
    let ordered = vec!["B".to_string(), "A".to_string()];
    let out = reorder_mods_with(
        &ordered,
        || Some("/game".to_string()),
        |path: &str| format!("{}/settings.xml", path),
        |settings_file: &str, names: &[String]| {
            assert_eq!(settings_file, "/game/settings.xml");
            assert_eq!(names, &["B".to_string(), "A".to_string()]);
            Ok("ok".to_string())
        },
    )
    .expect("expected forwarded reorder");
    assert_eq!(out, "ok");

    let err = reorder_mods_with(
        &ordered,
        || None,
        |path: &str| format!("{}/settings.xml", path),
        |_settings_file: &str, _names: &[String]| Ok("ok".to_string()),
    )
    .err()
    .expect("missing game path should error");
    assert_eq!(err, "Could not find game installation path.");
}

#[test]
fn mod_command_wrappers_forward_and_log() {
    let mut logs = Vec::<String>::new();
    let renamed = rename_mod_folder_command_with(
        "Old".to_string(),
        "New".to_string(),
        |level: &str, msg: &str| logs.push(format!("{level}:{msg}")),
        |old_name, new_name| {
            assert_eq!(old_name, "Old");
            assert_eq!(new_name, "New");
            Ok(Vec::new())
        },
    )
    .expect("rename wrapper");
    assert!(renamed.is_empty());
    assert!(logs
        .iter()
        .any(|line| line.contains("Requesting rename: 'Old' -> 'New'")));

    let deleted = delete_mod_command_with(
        "MyMod".to_string(),
        |level: &str, msg: &str| logs.push(format!("{level}:{msg}")),
        |mod_name| {
            assert_eq!(mod_name, "MyMod");
            Ok(Vec::new())
        },
    )
    .expect("delete wrapper");
    assert!(deleted.is_empty());
    assert!(logs
        .iter()
        .any(|line| line.contains("Requesting deletion of mod: MyMod")));

    let rename_err = rename_mod_folder_command_with(
        "Old".to_string(),
        "New".to_string(),
        |_level: &str, _msg: &str| {},
        |_old_name, _new_name| Err("rename-failed".to_string()),
    )
    .err()
    .expect("rename wrapper error path");
    assert_eq!(rename_err, "rename-failed");

    let delete_err = delete_mod_command_with(
        "MyMod".to_string(),
        |_level: &str, _msg: &str| {},
        |_mod_name| Err("delete-failed".to_string()),
    )
    .err()
    .expect("delete wrapper error path");
    assert_eq!(delete_err, "delete-failed");
}

#[test]
fn mod_command_update_and_ensure_wrappers_forward_inputs() {
    let out = update_mod_name_in_xml_with("Old", "New", |old_name: &str, new_name: &str| {
        assert_eq!(old_name, "Old");
        assert_eq!(new_name, "New");
        Ok("ok".to_string())
    })
    .expect("update name wrapper");
    assert_eq!(out, "ok");

    update_mod_id_in_json_with("Folder", "123", |folder: &str, id: &str| {
        assert_eq!(folder, "Folder");
        assert_eq!(id, "123");
        Ok(())
    })
    .expect("update id wrapper");

    let input = build_ensure_mod_info_input(
        "1".to_string(),
        "2".to_string(),
        "3".to_string(),
        "archive.zip".to_string(),
    );
    ensure_mod_info_with("Folder", &input, |folder: &str, forwarded: &pulsar::models::EnsureModInfoInput| {
        assert_eq!(folder, "Folder");
        assert_eq!(forwarded.install_source, "archive.zip");
        Ok(())
    })
    .expect("ensure wrapper");

    let err = update_mod_name_in_xml_with("Old", "New", |_old_name: &str, _new_name: &str| {
        Err("update-name-failed".to_string())
    })
    .err()
    .expect("update name error should bubble");
    assert_eq!(err, "update-name-failed");

    let err = update_mod_id_in_json_with("Folder", "123", |_folder: &str, _id: &str| {
        Err("update-id-failed".to_string())
    })
    .err()
    .expect("update id error should bubble");
    assert_eq!(err, "update-id-failed");

    let err = ensure_mod_info_with("Folder", &input, |_folder: &str, _forwarded: &pulsar::models::EnsureModInfoInput| {
        Err("ensure-failed".to_string())
    })
    .err()
    .expect("ensure error should bubble");
    assert_eq!(err, "ensure-failed");
}

#[test]
fn mod_command_entry_wrappers_forward_and_propagate_inputs() {
    let reordered = reorder_mods_command_with(vec!["B".to_string(), "A".to_string()], |names| {
        assert_eq!(names, vec!["B".to_string(), "A".to_string()]);
        Ok("ok".to_string())
    })
    .expect("reorder command wrapper");
    assert_eq!(reordered, "ok");

    let renamed = update_mod_name_in_xml_command_with("Old".to_string(), "New".to_string(), |old, new_name| {
        assert_eq!(old, "Old");
        assert_eq!(new_name, "New");
        Ok("<xml/>".to_string())
    })
    .expect("update name command wrapper");
    assert_eq!(renamed, "<xml/>");

    update_mod_id_in_json_command_with("Folder".to_string(), "9".to_string(), |folder, id| {
        assert_eq!(folder, "Folder");
        assert_eq!(id, "9");
        Ok(())
    })
    .expect("update id command wrapper");

    ensure_mod_info_command_with(
        "Folder".to_string(),
        "1".to_string(),
        "2".to_string(),
        "3".to_string(),
        "src.zip".to_string(),
        |folder, input| {
            assert_eq!(folder, "Folder");
            assert_eq!(input.mod_id, "1");
            assert_eq!(input.file_id, "2");
            assert_eq!(input.version, "3");
            assert_eq!(input.install_source, "src.zip");
            Ok(())
        },
    )
    .expect("ensure command wrapper");
}

#[test]
fn rename_mod_folder_with_deps_runs_all_steps_in_order() {
    let steps = RefCell::new(Vec::<String>::new());
    let rows = vec![ModRenderData {
        folder_name: "NEW".to_string(),
        enabled: true,
        priority: 0,
        local_info: None,
    }];
    let out = rename_mod_folder_with_deps(
        "Old".to_string(),
        "New".to_string(),
        || Some("/game".to_string()),
        |g: &str, n: &str| mod_folder_path(g, n),
        |p: &str| {
            steps.borrow_mut().push(format!("exists:{}", p));
            p.ends_with("Old") || p.ends_with("GCMODSETTINGS.MXML")
        },
        |a: bool, b: bool| validate_rename_paths(a, b),
        |p: &str| {
            steps.borrow_mut().push(format!("info:{}", p));
            Some(ModInfo {
                mod_id: None,
                file_id: None,
                version: None,
                install_source: Some("src.zip".to_string()),
            })
        },
        || Ok("/lib".to_string()),
        |lib: &str, src: &str, o: &str, n: &str| {
            steps.borrow_mut().push(format!("sync:{}:{}:{}:{}", lib, src, o, n));
            Ok(LibraryRenameSync::Renamed)
        },
        |a: &str, b: &str| {
            steps.borrow_mut().push(format!("rename:{}:{}", a, b));
            Ok(())
        },
        |g: &str| format!("{}/Binaries/SETTINGS/GCMODSETTINGS.MXML", g),
        |o: String, n: String| Ok(format!("<xml {}={}/>", o, n)),
        |p: String, content: String| {
            steps.borrow_mut().push(format!("save:{}:{}", p, content));
            Ok(())
        },
        || Ok(rows.clone()),
        |level: &str, msg: &str| steps.borrow_mut().push(format!("log:{}:{}", level, msg)),
    )
    .expect("rename should succeed");
    assert_eq!(out, rows);
    let steps = steps.borrow();
    assert_eq!(
        *steps,
        vec![
            "exists:/game/GAMEDATA/MODS/Old".to_string(),
            "exists:/game/GAMEDATA/MODS/New".to_string(),
            "info:/game/GAMEDATA/MODS/Old".to_string(),
            "sync:/lib:src.zip:Old:New".to_string(),
            "log:INFO:Synced folder rename to Library successfully.".to_string(),
            "rename:/game/GAMEDATA/MODS/Old:/game/GAMEDATA/MODS/New".to_string(),
            "exists:/game/Binaries/SETTINGS/GCMODSETTINGS.MXML".to_string(),
            "save:/game/Binaries/SETTINGS/GCMODSETTINGS.MXML:<xml Old=New/>".to_string(),
        ]
    );
}

#[test]
fn rename_mod_folder_with_deps_stops_on_validation_and_logs_xml_failures() {
    let renamed = RefCell::new(false);
    let err = rename_mod_folder_with_deps(
        "Old".to_string(),
        "New".to_string(),
        || Some("/game".to_string()),
        |g: &str, n: &str| mod_folder_path(g, n),
        |_p: &str| true,
        |a: bool, b: bool| validate_rename_paths(a, b),
        |_p: &str| None,
        || Ok("/lib".to_string()),
        |_l: &str, _s: &str, _o: &str, _n: &str| Ok(LibraryRenameSync::Renamed),
        |_a: &str, _b: &str| {
            *renamed.borrow_mut() = true;
            Ok(())
        },
        |g: &str| format!("{}/settings", g),
        |_o: String, _n: String| Ok(String::new()),
        |_p: String, _c: String| Ok(()),
        || Ok(Vec::new()),
        |_level: &str, _msg: &str| {},
    )
    .expect_err("an existing target should stop the rename");
    assert_eq!(err, "A mod with the new name already exists.");
    assert!(!*renamed.borrow());

    let logs = RefCell::new(Vec::<String>::new());
    let out = rename_mod_folder_with_deps(
        "Old".to_string(),
        "New".to_string(),
        || Some("/game".to_string()),
        |g: &str, n: &str| mod_folder_path(g, n),
        |p: &str| !p.ends_with("New"),
        |a: bool, b: bool| validate_rename_paths(a, b),
        |_p: &str| None,
        || Ok("/lib".to_string()),
        |_l: &str, _s: &str, _o: &str, _n: &str| Ok(LibraryRenameSync::Renamed),
        |_a: &str, _b: &str| Ok(()),
        |g: &str| format!("{}/settings", g),
        |_o: String, _n: String| Err("no such entry".to_string()),
        |_p: String, _c: String| Ok(()),
        || Ok(Vec::new()),
        |level: &str, msg: &str| logs.borrow_mut().push(format!("{}:{}", level, msg)),
    )
    .expect("a failed settings update is only logged");
    assert!(out.is_empty());
    assert_eq!(
        *logs.borrow(),
        vec!["WARN:Folder renamed, but XML update failed: no such entry".to_string()]
    );
}

#[test]
fn delete_mod_with_deps_logs_and_stops_on_errors() {
    let logs = RefCell::new(Vec::<String>::new());
    let out = delete_mod_with_deps(
        "ModA".to_string(),
        || Some("/game".to_string()),
        |g: &str| format!("{}/settings", g),
        |g: &str, n: &str| mod_folder_path(g, n),
        |_p: &str, _n: &str| Ok(false),
        |s: &str, n: &str| {
            assert_eq!(s, "/game/settings");
            assert_eq!(n, "ModA");
            Ok(())
        },
        || Ok(Vec::new()),
        |level: &str, msg: &str| logs.borrow_mut().push(format!("{}:{}", level, msg)),
    )
    .expect("delete should succeed");
    assert!(out.is_empty());
    assert_eq!(
        *logs.borrow(),
        vec!["WARN:Folder not found for deletion: \"/game/GAMEDATA/MODS/ModA\"".to_string()]
    );

    let err = delete_mod_with_deps(
        "ModA".to_string(),
        || Some("/game".to_string()),
        |g: &str| format!("{}/settings", g),
        |g: &str, n: &str| mod_folder_path(g, n),
        |_p: &str, _n: &str| Ok(true),
        |_s: &str, _n: &str| Err("save failed".to_string()),
        || Ok(Vec::new()),
        |_level: &str, _msg: &str| {},
    )
    .expect_err("a failed save should stop the delete");
    assert_eq!(err, "save failed");
}

#[test]
fn download_mod_archive_with_logs_and_forwards_arguments() {
    let mut logs = Vec::<String>::new();
    let mut seen = None::<(String, String, Option<String>)>;
    let result = download_mod_archive_with(
        "a.zip".to_string(),
        "https://example.invalid/a.zip".to_string(),
        Some("id-1".to_string()),
        |level: &str, message: &str| logs.push(format!("{level}:{message}")),
        |file_name: String, download_url: String, download_id: Option<String>| {
            seen = Some((file_name, download_url, download_id));
            Ok(DownloadResult {
                path: "/tmp/a.zip".to_string(),
                size: 10,
                created_at: 20,
            })
        },
    )
    .expect("download wrapper should return result");

    assert!(logs
        .iter()
        .any(|m| m.contains("Starting download request for: a.zip")));
    assert_eq!(
        seen,
        Some((
            "a.zip".to_string(),
            "https://example.invalid/a.zip".to_string(),
            Some("id-1".to_string())
        ))
    );
    assert_eq!(result.path, "/tmp/a.zip");
}

#[test]
fn download_mod_archive_with_propagates_flow_errors() {
    let err = download_mod_archive_with(
        "a.zip".to_string(),
        "https://example.invalid/a.zip".to_string(),
        None,
        |_level: &str, _message: &str| {},
        |_f: String, _u: String, _i: Option<String>| -> Result<DownloadResult, String> {
            Err("download-failed".to_string())
        },
    )
    .err()
    .expect("flow error should bubble");
    assert_eq!(err, "download-failed");

    let out = download_mod_archive_command_with(
        "b.zip".to_string(),
        "https://example.invalid/b.zip".to_string(),
        None,
        |f: String, _u: String, i: Option<String>| {
            assert_eq!(f, "b.zip");
            assert!(i.is_none());
            Ok(DownloadResult { path: "/d/b.zip".to_string(), size: 1, created_at: 2 })
        },
    )
    .expect("command should forward");
    assert_eq!(out.size, 1);
}

#[test]
fn mod_commands_wrapper_uses_expected_logic_contracts() {
    let info_path = mod_info_path_for("/game", "MyMod");
    assert!(info_path.ends_with("GAMEDATA/MODS/MyMod/mod_info.json"));

    let (old_path, new_path) = library_rename_paths("/lib", "source.zip", "Old", "New");
    assert!(old_path.ends_with("source.zip_unpacked/Old"));
    assert!(new_path.ends_with("source.zip_unpacked/New"));

    ensure_success_status(reqwest::StatusCode::OK.as_u16()).expect("expected success status");
    let payload = progress_payload("id", 50);
    assert_eq!(payload.step, "Downloading: 50%");
    assert_eq!(payload.progress, Some(50));
    assert_eq!(mods_root_from_game_path("/tmp/NMS"), "/tmp/NMS/GAMEDATA/MODS");
    assert_eq!(mod_folder_path("/tmp/NMS", "MyMod"), "/tmp/NMS/GAMEDATA/MODS/MyMod");
    validate_rename_paths(true, false).expect("expected valid rename paths");
    assert_eq!(
        map_update_mod_id_error("MyMod", "file not found for path".to_string()),
        "mod_info.json not found for mod 'MyMod'."
    );

    let out = build_download_result("/tmp/a.zip", 1, 2);
    assert_eq!(out.path, "/tmp/a.zip");
    assert_eq!(out.size, 1);
    assert_eq!(out.created_at, 2);
}

#[test]
fn mod_command_entry_wrappers_forward_and_propagate() {
    let reordered = reorder_mods_command_with(vec!["B".to_string(), "A".to_string()], |names: Vec<String>| {
        assert_eq!(names, vec!["B".to_string(), "A".to_string()]);
        Ok("ok".to_string())
    })
    .expect("reorder command wrapper");
    assert_eq!(reordered, "ok");

    let renamed = update_mod_name_in_xml_command_with(
        "Old".to_string(),
        "New".to_string(),
        |old: String, new_name: String| {
            assert_eq!(old, "Old");
            assert_eq!(new_name, "New");
            Ok("done".to_string())
        },
    )
    .expect("update name command wrapper");
    assert_eq!(renamed, "done");

    update_mod_id_in_json_command_with("Folder".to_string(), "123".to_string(), |folder: String, id: String| {
        assert_eq!(folder, "Folder");
        assert_eq!(id, "123");
        Ok(())
    })
    .expect("update id command wrapper");

    ensure_mod_info_command_with(
        "Folder".to_string(),
        "1".to_string(),
        "2".to_string(),
        "3".to_string(),
        "archive.zip".to_string(),
        |folder: String, input: pulsar::models::EnsureModInfoInput| {
            assert_eq!(folder, "Folder");
            assert_eq!(input.mod_id, "1");
            assert_eq!(input.file_id, "2");
            assert_eq!(input.version, "3");
            assert_eq!(input.install_source, "archive.zip");
            Ok(())
        },
    )
    .expect("ensure command wrapper");

    let out = download_mod_archive_command_with(
        "a.zip".to_string(),
        "https://example.invalid/a.zip".to_string(),
        Some("id-1".to_string()),
        |name: String, url: String, id: Option<String>| {
            assert_eq!(name, "a.zip");
            assert_eq!(url, "https://example.invalid/a.zip");
            assert_eq!(id.as_deref(), Some("id-1"));
            Ok(DownloadResult {
                path: "/tmp/a.zip".to_string(),
                size: 1,
                created_at: 2,
            })
        },
    )
    .expect("download command wrapper");
    assert_eq!(out.path, "/tmp/a.zip");

    let err = update_mod_name_in_xml_command_with(
        "Old".to_string(),
        "New".to_string(),
        |_old: String, _new_name: String| -> Result<String, String> {
            Err("update-name-failed".to_string())
        },
    )
    .err()
    .expect("update name error should bubble");
    assert_eq!(err, "update-name-failed");
}

#[test]
fn delete_logs_folder_as_a_path() {
    let logs = RefCell::new(Vec::<String>::new());
    delete_mod_with_deps(
        "Bob's Mod".to_string(),
        || Some("/game".to_string()),
        |g: &str| format!("{}/settings", g),
        |g: &str, n: &str| mod_folder_path(g, n),
        |_p: &str, _n: &str| Ok(true),
        |_s: &str, _n: &str| Ok(()),
        || Ok(Vec::new()),
        |level: &str, msg: &str| logs.borrow_mut().push(format!("{}:{}", level, msg)),
    )
    .expect("delete should succeed");
    let shown = format!("{:?}", std::path::Path::new("/game/GAMEDATA/MODS/Bob's Mod"));
    assert_eq!(*logs.borrow(), vec![format!("INFO:Deleted folder: {}", shown)]);
}
