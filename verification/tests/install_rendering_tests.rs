use pulsar::install_rendering::{build_mods_to_render, clean_orphaned_entries, real_folders_from_names};
use pulsar::models::{ModEntry, ModInfo, ModProperty, SettingsData, TopLevelProperty};

fn mk_mod_entry(name: &str, enabled: &str, priority: &str) -> ModEntry {
    ModEntry {
        entry_name: "Mod".to_string(),
        entry_value: "".to_string(),
        index: "0".to_string(),
        properties: vec![
            ModProperty {
                name: "Name".to_string(),
                value: Some(name.to_string()),
            },
            ModProperty {
                name: "Enabled".to_string(),
                value: Some(enabled.to_string()),
            },
            ModProperty {
                name: "ModPriority".to_string(),
                value: Some(priority.to_string()),
            },
        ],
    }
}

#[test]
fn clean_orphaned_entries_removes_missing_and_reindexes() {
    let mut root = SettingsData {
        template: "GcModSettings".to_string(),
        properties: vec![TopLevelProperty {
            name: "Data".to_string(),
            value: None,
            mods: vec![
                mk_mod_entry("KeepMe", "true", "9"),
                mk_mod_entry("DropMe", "true", "10"),
            ],
        }],
    };
    let set = vec!["KEEPME".to_string()];

    let dirty = clean_orphaned_entries(&mut root, &set);
    assert!(dirty);
    let mods = &root.properties[0].mods;
    assert_eq!(mods.len(), 1);
    assert_eq!(mods[0].index, "0");
    assert_eq!(
        mods[0]
            .properties
            .iter()
            .find(|p| p.name == "ModPriority")
            .and_then(|p| p.value.clone())
            .as_deref(),
        Some("0")
    );
}

#[test]
fn clean_orphaned_entries_returns_false_when_data_missing_or_unchanged() {
    let mut no_data = SettingsData {
        template: "GcModSettings".to_string(),
        properties: vec![],
    };
    assert!(!clean_orphaned_entries(&mut no_data, &vec!["ANY".to_string()]));

    let mut unchanged = SettingsData {
        template: "GcModSettings".to_string(),
        properties: vec![TopLevelProperty {
            name: "Data".to_string(),
            value: None,
            mods: vec![mk_mod_entry("KeepMe", "true", "3")],
        }],
    };
    assert!(!clean_orphaned_entries(&mut unchanged, &vec!["KEEPME".to_string()]));
}

#[test]
fn build_mods_to_render_sorts_by_priority_and_attaches_local_info() {
    let root = SettingsData {
        template: "GcModSettings".to_string(),
        properties: vec![TopLevelProperty {
            name: "Data".to_string(),
            value: None,
            mods: vec![
                mk_mod_entry("Second", "false", "5"),
                mk_mod_entry("First", "true", "1"),
            ],
        }],
    };
    let folders = vec![
        ("SECOND".to_string(), "Second".to_string()),
        ("FIRST".to_string(), "first".to_string()),
    ];
    let rows = build_mods_to_render(&root, &folders, "/mods", |p: &str| {
        if p == "/mods/first" {
            Some(ModInfo {
                mod_id: Some("7".to_string()),
                file_id: None,
                version: Some("1.2".to_string()),
                install_source: None,
            })
        } else {
            None
        }
    });
    assert_eq!(rows.len(), 2);
    assert_eq!(rows[0].folder_name, "first");
    assert_eq!(rows[0].priority, 1);
    assert!(rows[0].enabled);
    let info = rows[0].local_info.as_ref().expect("first has info");
    assert_eq!(info.folder_name, "first");
    assert_eq!(info.mod_id.as_deref(), Some("7"));
    assert_eq!(rows[1].folder_name, "Second");
    assert!(!rows[1].enabled);
    assert!(rows[1].local_info.is_none());
}

#[test]
fn clean_orphaned_entries_a_second_time_reports_no_change() {
    let mut root = SettingsData {
        template: "GcModSettings".to_string(),
        properties: vec![TopLevelProperty {
            name: "Data".to_string(),
            value: None,
            mods: vec![
                mk_mod_entry("Keep", "true", "4"),
                mk_mod_entry("Lost", "true", "5"),
                mk_mod_entry("Also", "false", "6"),
            ],
        }],
    };
    let set = vec!["KEEP".to_string(), "ALSO".to_string()];
    assert!(clean_orphaned_entries(&mut root, &set));
    let once = root.clone();
    assert_eq!(once.properties[0].mods.len(), 2);
    assert!(!clean_orphaned_entries(&mut root, &set));
    assert_eq!(root, once);
}

#[test]
fn build_mods_to_render_shows_every_named_entry_by_priority() {
    let root = SettingsData {
        template: "GcModSettings".to_string(),
        properties: vec![TopLevelProperty {
            name: "Data".to_string(),
            value: None,
            mods: vec![
                mk_mod_entry("C", "true", "9"),
                mk_mod_entry("A", "true", "2"),
                mk_mod_entry("X", "true", "bad"),
                mk_mod_entry("B", "true", "2"),
            ],
        }],
    };
    let rows = build_mods_to_render(&root, &Vec::new(), "/m", |_p: &str| None);
    let order: Vec<(&str, u32)> = rows.iter().map(|r| (r.folder_name.as_str(), r.priority)).collect();
    assert_eq!(order, vec![("A", 2), ("B", 2), ("C", 9), ("X", u32::MAX)]);
}

#[test]
fn build_mods_to_render_sorts_and_reads_local_info() {
    let root = SettingsData {
        template: "GcModSettings".to_string(),
        properties: vec![TopLevelProperty {
            name: "Data".to_string(),
            value: None,
            mods: vec![
                mk_mod_entry("UnmappedName", "false", "5"),
                mk_mod_entry("REALNAME", "true", "1"),
            ],
        }],
    };
    let map = vec![("REALNAME".to_string(), "RealName".to_string())];
    let rendered = build_mods_to_render(&root, &map, "/dir", |p: &str| {
        if p == "/dir/RealName" {
            Some(ModInfo {
                mod_id: Some("fallback-id".to_string()),
                file_id: Some("22".to_string()),
                version: Some("1.2.3".to_string()),
                install_source: Some("src.zip".to_string()),
            })
        } else {
            None
        }
    });

    assert_eq!(rendered.len(), 2);
    assert_eq!(rendered[0].folder_name, "RealName");
    assert!(rendered[0].enabled);
    assert_eq!(
        rendered[0]
            .local_info
            .as_ref()
            .and_then(|i| i.mod_id.clone())
            .as_deref(),
        Some("fallback-id")
    );
    assert_eq!(rendered[1].folder_name, "UnmappedName");
    assert!(!rendered[1].enabled);
}

#[test]
fn build_mods_to_render_skips_nameless_entries_and_handles_missing_data() {
    let root = SettingsData {
        template: "GcModSettings".to_string(),
        properties: vec![TopLevelProperty {
            name: "Data".to_string(),
            value: None,
            mods: vec![
                ModEntry {
                    entry_name: "Mod".to_string(),
                    entry_value: "".to_string(),
                    index: "0".to_string(),
                    properties: vec![ModProperty {
                        name: "Enabled".to_string(),
                        value: Some("true".to_string()),
                    }],
                },
                mk_mod_entry("Named", "false", "7"),
            ],
        }],
    };

    let rendered = build_mods_to_render(&root, &Vec::new(), "/dir", |_p: &str| None);
    assert_eq!(rendered.len(), 1);
    assert_eq!(rendered[0].folder_name, "Named");

    let empty = SettingsData {
        template: "GcModSettings".to_string(),
        properties: vec![],
    };
    assert!(build_mods_to_render(&empty, &Vec::new(), "/dir", |_p: &str| None).is_empty());
}

#[test]
fn real_folders_from_names_builds_uppercase_lookup() {
    let (map, set) = real_folders_from_names(&vec!["SomeMod".to_string(), "another".to_string()]);
    assert_eq!(
        map,
        vec![
            ("SOMEMOD".to_string(), "SomeMod".to_string()),
            ("ANOTHER".to_string(), "another".to_string())
        ]
    );
    assert_eq!(set, vec!["SOMEMOD".to_string(), "ANOTHER".to_string()]);

    let (map, set) = real_folders_from_names(&vec!["mod".to_string(), "Straße".to_string(), "MOD".to_string()]);
    assert_eq!(
        map,
        vec![("MOD".to_string(), "MOD".to_string()), ("STRASSE".to_string(), "Straße".to_string())]
    );
    assert_eq!(set, vec!["MOD".to_string(), "STRASSE".to_string(), "MOD".to_string()]);
}
