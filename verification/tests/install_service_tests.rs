use pulsar::install_service::{
    debug_list, ensure_existing_source_root, finalize_installation_with,
    get_all_mods_for_render_with, get_staging_dir_with, io_error_to_string,
    missing_game_installation_path_error, missing_game_path_error, parse_settings_xml,
    read_mod_id_for_candidate, read_settings_xml, select_install_items,
};
use pulsar::models::{ModEntry, ModInfo, ModProperty, SettingsData, TopLevelProperty};
use std::cell::RefCell;

fn mk_mod_entry(name: &str, enabled: &str, priority: &str) -> ModEntry {
    ModEntry {
        entry_name: "Mod".to_string(),
        entry_value: "".to_string(),
        index: priority.to_string(),
        properties: vec![
            ModProperty {
                name: "Name".to_string(),
                value: Some(name.to_string()),
            },
            ModProperty {
                name: "Enabled".to_string(),
                value: Some(enabled.to_string()),
            },
            ModProperty {
                name: "ModPriority".to_string(),
                value: Some(priority.to_string()),
            },
        ],
    }
}

fn settings_with(mods: Vec<ModEntry>) -> SettingsData {
    SettingsData {
        template: "GcModSettings".to_string(),
        properties: vec![TopLevelProperty {
            name: "Data".to_string(),
            value: None,
            mods,
        }],
    }
}

#[test]
fn install_service_helper_messages_and_io_conversion_are_stable() {
    assert_eq!(
        missing_game_installation_path_error(),
        "Could not find game installation path."
    );
    assert_eq!(missing_game_path_error(), "Could not find game path.");
    assert_eq!(io_error_to_string(std::io::Error::other("boom")), "boom");
}

#[test]
fn mods_for_render_errors_when_game_path_missing() {
    let result = get_all_mods_for_render_with(
        || None,
        |_p: &str| true,
        |_p: &str| (Vec::new(), Vec::new()),
        |_p: &str| Ok(String::new()),
        |_x: &str| Err("unused".to_string()),
        |_p: &str, _d: &SettingsData| Ok(()),
        |_p: &str| None,
        |_l: &str, _m: &str| {},
    );
    assert!(result.is_err(), "expected missing game path error");
    if let Err(err) = result {
        assert_eq!(err, "Could not find game installation path.");
    }
}

#[test]
fn mods_for_render_is_empty_without_settings_file() {
    let logs = RefCell::new(Vec::<String>::new());
    let out = get_all_mods_for_render_with(
        || Some("/nms".to_string()),
        |_p: &str| false,
        |_p: &str| (Vec::new(), Vec::new()),
        |_p: &str| Ok(String::new()),
        |_x: &str| Err("unused".to_string()),
        |_p: &str, _d: &SettingsData| Ok(()),
        |_p: &str| None,
        |l: &str, m: &str| logs.borrow_mut().push(format!("{}:{}", l, m)),
    )
    .expect("missing settings should give an empty list");
    assert!(out.is_empty());
    assert_eq!(
        *logs.borrow(),
        vec!["DEBUG:GCMODSETTINGS.MXML not found at: /nms/Binaries/SETTINGS/GCMODSETTINGS.MXML".to_string()]
    );
}

#[test]
fn mods_for_render_cleans_orphans_saves_and_renders() {
    let saved = RefCell::new(Vec::<SettingsData>::new());
    let logs = RefCell::new(Vec::<String>::new());
    let out = get_all_mods_for_render_with(
        || Some("/nms".to_string()),
        |_p: &str| true,
        |p: &str| {
            assert_eq!(p, "/nms/GAMEDATA/MODS");
            (
                vec![("KEEP".to_string(), "Keep".to_string())],
                vec!["KEEP".to_string()],
            )
        },
        |p: &str| {
            assert_eq!(p, "/nms/Binaries/SETTINGS/GCMODSETTINGS.MXML");
            Ok("<xml/>".to_string())
        },
        |_x: &str| Ok(settings_with(vec![mk_mod_entry("Keep", "true", "4"), mk_mod_entry("Gone", "true", "2")])),
        |_p: &str, d: &SettingsData| {
            saved.borrow_mut().push(d.clone());
            Ok(())
        },
        |_p: &str| None,
        |l: &str, m: &str| logs.borrow_mut().push(format!("{}:{}", l, m)),
    )
    .expect("render should succeed");
    assert_eq!(out.len(), 1);
    assert_eq!(out[0].folder_name, "Keep");
    assert_eq!(out[0].priority, 0);
    assert_eq!(saved.borrow().len(), 1);
    assert_eq!(saved.borrow()[0].properties[0].mods.len(), 1);
    assert!(logs
        .borrow()
        .contains(&"INFO:Cleaned orphaned mods from GCMODSETTINGS.MXML".to_string()));
    assert!(logs
        .borrow()
        .contains(&"DEBUG:Read GCMODSETTINGS.MXML successfully. Content length: 6 bytes".to_string()));
}

#[test]
fn read_and_parse_settings_log_and_wrap_errors() {
    let logs = RefCell::new(Vec::<String>::new());
    let err = read_settings_xml("/s.mxml", |_p: &str| Err("is a directory".to_string()), |l: &str, m: &str| {
        logs.borrow_mut().push(format!("{}:{}", l, m))
    })
    .expect_err("read failure");
    assert_eq!(err, "Failed to read GCMODSETTINGS.MXML: is a directory");
    assert_eq!(
        *logs.borrow(),
        vec![
            "DEBUG:Attempting to read GCMODSETTINGS.MXML at: /s.mxml".to_string(),
            "ERROR:Failed to read GCMODSETTINGS.MXML: is a directory".to_string(),
        ]
    );
    let ok = read_settings_xml("/s.mxml", |_p: &str| Ok("héllo".to_string()), |_l: &str, _m: &str| {})
        .expect("read success");
    assert_eq!(ok, "héllo");

    let err = parse_settings_xml("<bad", |_x: &str| Err("Failed to parse GCMODSETTINGS.MXML: eof".to_string()), |_l: &str, _m: &str| {})
        .expect_err("parse failure");
    assert_eq!(
        err,
        "Failed to parse GCMODSETTINGS.MXML: Failed to parse GCMODSETTINGS.MXML: eof"
    );
}

#[test]
fn staging_source_selection_and_mod_id_helpers() {
    let staging = get_staging_dir_with(|| Ok("/app".to_string()), |_p: &str| Ok(()));
    assert_eq!(staging, Ok("/app/staging".to_string()));
    let err = get_staging_dir_with(|| Ok("/app".to_string()), |_p: &str| Err(std::io::Error::other("full")));
    assert_eq!(err, Err("full".to_string()));

    let logs = RefCell::new(Vec::<String>::new());
    let found = ensure_existing_source_root("/lib", "Pack", |_p: &str| true, |_l: &str, _m: &str| {});
    assert_eq!(found, Ok("/lib/Pack".to_string()));
    let missing = ensure_existing_source_root("/lib", "Missing", |_p: &str| false, |l: &str, m: &str| {
        logs.borrow_mut().push(format!("{}:{}", l, m))
    });
    assert_eq!(missing, Err("Library folder missing: \"/lib/Missing\"".to_string()));
    assert_eq!(*logs.borrow(), vec!["ERROR:Library folder missing: \"/lib/Missing\"".to_string()]);

    let logs = RefCell::new(Vec::<String>::new());
    let items = select_install_items("/lib/Pack", &["A".to_string(), "B\"x".to_string()], |_p: &str| Ok(Vec::new()), |l: &str, m: &str| {
        logs.borrow_mut().push(format!("{}:{}", l, m))
    });
    assert_eq!(items, Ok(vec!["A".to_string(), "B\"x".to_string()]));
    assert_eq!(
        *logs.borrow(),
        vec![format!("INFO:Selected folders to install: {:?}", vec!["A", "B\"x"])]
    );
    assert_eq!(debug_list(&[]), "[]");

    let id = read_mod_id_for_candidate("/m", |_p: &str| {
        Some(ModInfo {
            mod_id: Some("abc".to_string()),
            file_id: None,
            version: None,
            install_source: None,
        })
    });
    assert_eq!(id, Some("abc".to_string()));
    assert_eq!(read_mod_id_for_candidate("/m", |_p: &str| None), None);
}

#[test]
fn finalize_installation_deploys_and_stages_conflicts() {
    let logs = RefCell::new(Vec::<String>::new());
    let deployed = RefCell::new(Vec::<(String, String)>::new());
    let out = finalize_installation_with(
        "Pack_unpacked".to_string(),
        vec![],
        false,
        || Some("/nms".to_string()),
        || Ok("/lib".to_string()),
        || Ok("/app".to_string()),
        |l: &str, m: &str| logs.borrow_mut().push(format!("{}:{}", l, m)),
        |p: &str| p != "/nms/GAMEDATA/MODS/Fresh",
        |_p: &str| Ok(()),
        |_p: &str| vec!["/nms/GAMEDATA/MODS/Old".to_string()],
        |p: &str| {
            if p == "/nms/GAMEDATA/MODS/Old" || p == "/lib/Pack_unpacked/Updated" {
                Some(ModInfo {
                    mod_id: Some("7".to_string()),
                    file_id: None,
                    version: None,
                    install_source: None,
                })
            } else {
                None
            }
        },
        |_p: &str| Ok(vec!["Updated".to_string(), "Fresh".to_string()]),
        |_a: &str, _b: &str| Vec::new(),
        |a: &str, b: &str| {
            deployed.borrow_mut().push((a.to_string(), b.to_string()));
            Ok(())
        },
    )
    .expect("finalize should succeed");
    assert_eq!(out.successes.len(), 1);
    assert_eq!(out.successes[0].name, "Fresh");
    assert_eq!(out.successes[0].temp_path, "/nms/GAMEDATA/MODS/Fresh");
    assert_eq!(out.conflicts.len(), 1);
    assert_eq!(out.conflicts[0].new_mod_name, "Updated");
    assert_eq!(out.conflicts[0].old_mod_folder_name, "Old");
    assert!(out.conflicts[0].temp_path.starts_with("/app/staging/conflict_"));
    assert!(!out.selection_needed);
    assert_eq!(deployed.borrow()[1], ("/lib/Pack_unpacked/Fresh".to_string(), "/nms/GAMEDATA/MODS/Fresh".to_string()));
    assert_eq!(
        logs.borrow()[0],
        "INFO:Finalizing installation. Source: Pack_unpacked, Flatten: false"
    );
    assert_eq!(
        logs.borrow().last().cloned(),
        Some("INFO:Installation finalization complete.".to_string())
    );
}

#[test]
fn finalize_installation_stops_at_the_first_failure() {
    let missing_game = finalize_installation_with(
        "P".to_string(),
        vec![],
        true,
        || None,
        || Ok("/lib".to_string()),
        || Ok("/app".to_string()),
        |_l: &str, _m: &str| {},
        |_p: &str| true,
        |_p: &str| Ok(()),
        |_p: &str| Vec::new(),
        |_p: &str| None,
        |_p: &str| Ok(Vec::new()),
        |_a: &str, _b: &str| Vec::new(),
        |_a: &str, _b: &str| Ok(()),
    );
    assert_eq!(missing_game.err(), Some("Could not find game path.".to_string()));

    let deploy_err = finalize_installation_with(
        "P".to_string(),
        vec!["Mod".to_string()],
        false,
        || Some("/nms".to_string()),
        || Ok("/lib".to_string()),
        || Ok("/app".to_string()),
        |_l: &str, _m: &str| {},
        |p: &str| !p.starts_with("/nms/GAMEDATA/MODS/"),
        |_p: &str| Ok(()),
        |_p: &str| Vec::new(),
        |_p: &str| None,
        |_p: &str| Ok(Vec::new()),
        |_a: &str, _b: &str| Vec::new(),
        |_a: &str, _b: &str| Err("disk full".to_string()),
    );
    assert_eq!(deploy_err.err(), Some("Failed to deploy Mod: disk full".to_string()));
}

#[test]
fn finalize_installation_errors_when_game_path_missing() {
    let result = finalize_installation_with(
        "pack_unpacked".to_string(),
        vec![],
        false,
        || None,
        || Err("no library".to_string()),
        || Err("no root".to_string()),
        |_l: &str, _m: &str| {},
        |_p: &str| false,
        |_p: &str| Ok(()),
        |_p: &str| Vec::new(),
        |_p: &str| None,
        |_p: &str| Ok(Vec::new()),
        |_a: &str, _b: &str| Vec::new(),
        |_a: &str, _b: &str| Ok(()),
    );
    assert!(result.is_err(), "expected missing game path error");
    if let Err(err) = result {
        assert_eq!(err, "Could not find game path.");
    }
}

#[test]
fn missing_library_folder_is_shown_as_a_path() {
    let logs = RefCell::new(Vec::<String>::new());
    let missing = ensure_existing_source_root("/lib", "Bob's Mod", |_p: &str| false, |l: &str, m: &str| {
        logs.borrow_mut().push(format!("{}:{}", l, m))
    });
    let expected = format!("Library folder missing: {:?}", std::path::Path::new("/lib/Bob's Mod"));
    assert_eq!(missing, Err(expected.clone()));
    assert_eq!(*logs.borrow(), vec![format!("ERROR:{}", expected)]);
}
