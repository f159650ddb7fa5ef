use pulsar::models::{ModEntry, ModProperty, SettingsData, TopLevelProperty};
use pulsar::ordering::{delete_mod_and_reindex, rename_mod_in_xml, reorder_mods};

fn make_mod(name: &str, priority: &str, index: &str) -> ModEntry {
    ModEntry {
        entry_name: "Data".to_string(),
        entry_value: "GcModData.xml".to_string(),
        index: index.to_string(),
        properties: vec![
            ModProperty {
                name: "Name".to_string(),
                value: Some(name.to_string()),
            },
            ModProperty {
                name: "ModPriority".to_string(),
                value: Some(priority.to_string()),
            },
        ],
    }
}

fn name_of(entry: &ModEntry) -> String {
    entry
        .properties
        .iter()
        .find(|p| p.name == "Name")
        .and_then(|p| p.value.clone())
        .unwrap_or_default()
}

fn priority_of(entry: &ModEntry) -> String {
    entry
        .properties
        .iter()
        .find(|p| p.name == "ModPriority")
        .and_then(|p| p.value.clone())
        .unwrap_or_default()
}

fn data_mods(root: &SettingsData) -> Vec<ModEntry> {
    root.properties
        .iter()
        .find(|p| p.name == "Data")
        .map(|p| p.mods.clone())
        .unwrap_or_default()
}

fn root_with_mods(mods: Vec<ModEntry>) -> SettingsData {
    SettingsData {
        template: "GcModSettings".to_string(),
        properties: vec![
            TopLevelProperty {
                name: "DisableAllMods".to_string(),
                value: Some("false".to_string()),
                mods: Vec::new(),
            },
            TopLevelProperty {
                name: "Data".to_string(),
                value: None,
                mods,
            },
        ],
    }
}

#[test]
fn delete_mod_removes_and_reindexes_sorted_by_priority() {
    let mut root = root_with_mods(vec![
        make_mod("BETA", "9", "0"),
        make_mod("ALPHA", "1", "1"),
        make_mod("GAMMA", "5", "2"),
    ]);
    delete_mod_and_reindex(&mut root, "gamma");

    let mods = data_mods(&root);
    assert_eq!(mods.len(), 2);
    assert_eq!(name_of(&mods[0]), "ALPHA");
    assert_eq!(name_of(&mods[1]), "BETA");
    assert_eq!(mods[0].index, "0");
    assert_eq!(mods[1].index, "1");
}

#[test]
fn reorder_mods_updates_index_and_priority_for_ordered_entries() {
    let mut root = root_with_mods(vec![
        make_mod("ALPHA", "0", "0"),
        make_mod("BETA", "1", "1"),
        make_mod("GAMMA", "2", "2"),
    ]);
    reorder_mods(&mut root, &["GAMMA".to_string(), "ALPHA".to_string()]);

    let mods = data_mods(&root);
    assert_eq!(name_of(&mods[0]), "GAMMA");
    assert_eq!(mods[0].index, "0");
    assert_eq!(priority_of(&mods[0]), "0");

    assert_eq!(name_of(&mods[1]), "ALPHA");
    assert_eq!(mods[1].index, "1");
    assert_eq!(priority_of(&mods[1]), "1");

    assert_eq!(name_of(&mods[2]), "BETA");
}

#[test]
fn rename_mod_updates_name_to_uppercase() {
    let mut root = root_with_mods(vec![make_mod("ALPHA", "0", "0")]);
    rename_mod_in_xml(&mut root, "alpha", "newName").expect("rename should succeed");
    let mods = data_mods(&root);
    assert_eq!(name_of(&mods[0]), "NEWNAME");
}

#[test]
fn rename_mod_returns_error_when_not_found() {
    let mut root = root_with_mods(vec![make_mod("ALPHA", "0", "0")]);
    let err = rename_mod_in_xml(&mut root, "missing", "new").expect_err("missing mod should fail");
    assert!(err.contains("Could not find a mod entry"));
}

#[test]
fn delete_and_reorder_are_noops_without_data_property() {
    let mut root = SettingsData {
        template: "GcModSettings".to_string(),
        properties: vec![],
    };

    delete_mod_and_reindex(&mut root, "ALPHA");
    reorder_mods(&mut root, &["ALPHA".to_string()]);

    assert!(root.properties.is_empty());
}

#[test]
fn reorder_mods_leaves_unordered_and_missing_priority_entries_intact() {
    let mut unnamed_priority = make_mod("BETA", "1", "1");
    unnamed_priority
        .properties
        .retain(|p| p.name != "ModPriority");
    let mut root = root_with_mods(vec![
        make_mod("ALPHA", "0", "0"),
        unnamed_priority.clone(),
        make_mod("GAMMA", "2", "2"),
    ]);

    reorder_mods(&mut root, &["GAMMA".to_string(), "MISSING".to_string()]);

    let mods = data_mods(&root);
    assert_eq!(name_of(&mods[0]), "GAMMA");
    assert_eq!(mods[0].index, "0");
    assert_eq!(priority_of(&mods[0]), "0");
    let remaining_names: Vec<String> = mods[1..].iter().map(name_of).collect();
    assert!(remaining_names.contains(&"ALPHA".to_string()));
    assert!(remaining_names.contains(&"BETA".to_string()));
    let beta = mods
        .iter()
        .find(|entry| name_of(entry) == "BETA")
        .expect("BETA should remain present");
    assert_eq!(priority_of(beta), "");
}

#[test]
fn rename_mod_returns_error_without_data_or_name_property() {
    let mut no_data = SettingsData {
        template: "GcModSettings".to_string(),
        properties: vec![],
    };
    let err =
        rename_mod_in_xml(&mut no_data, "alpha", "new").expect_err("missing data should fail");
    assert!(err.contains("Could not find a mod entry"));

    let mut missing_name = root_with_mods(vec![make_mod("ALPHA", "0", "0")]);
    missing_name
        .properties
        .iter_mut()
        .find(|property| property.name == "Data")
        .expect("Data property should exist")
        .mods[0]
        .properties
        .retain(|p| p.name != "Name");
    let err =
        rename_mod_in_xml(&mut missing_name, "alpha", "new").expect_err("missing name should fail");
    assert!(err.contains("Could not find a mod entry"));
}

#[test]
fn rename_mod_error_names_the_missing_mod_and_changes_nothing() {
    let mut root = root_with_mods(vec![make_mod("ALPHA", "0", "0")]);
    let before = root.clone();
    let err = rename_mod_in_xml(&mut root, "beta", "new").expect_err("missing mod should fail");
    assert_eq!(err, "Could not find a mod entry with the name 'beta' in the XML file.");
    assert_eq!(root, before);
}

#[test]
fn delete_mod_keeps_entries_without_priority_last() {
    let mut no_priority = make_mod("DELTA", "x", "3");
    no_priority.properties.retain(|p| p.name != "ModPriority");
    let mut root = root_with_mods(vec![
        no_priority,
        make_mod("BETA", "7", "1"),
        make_mod("ALPHA", "7", "2"),
        make_mod("OMEGA", "1", "0"),
    ]);
    delete_mod_and_reindex(&mut root, "omega");
    let mods = data_mods(&root);
    let names: Vec<String> = mods.iter().map(name_of).collect();
    assert_eq!(names, vec!["BETA", "ALPHA", "DELTA"]);
    let indexes: Vec<String> = mods.iter().map(|m| m.index.clone()).collect();
    assert_eq!(indexes, vec!["0", "1", "2"]);
    assert_eq!(root.properties[0].name, "DisableAllMods");
}

#[test]
fn delete_mod_twice_changes_nothing_the_second_time() {
    let mut root = root_with_mods(vec![
        make_mod("C", "7", "0"),
        make_mod("gone", "3", "1"),
        make_mod("A", "x", "2"),
        make_mod("B", "2", "3"),
    ]);
    delete_mod_and_reindex(&mut root, "GONE");
    let once = root.clone();
    let mods = data_mods(&once);
    let names: Vec<String> = mods.iter().map(name_of).collect();
    assert_eq!(names, vec!["B", "C", "A"]);
    let indices: Vec<&str> = mods.iter().map(|m| m.index.as_str()).collect();
    assert_eq!(indices, vec!["0", "1", "2"]);
    assert_eq!(priority_of(&mods[0]), "2");
    delete_mod_and_reindex(&mut root, "GONE");
    assert_eq!(root, once);
}

#[test]
fn reorder_mods_keeps_each_mod_exactly_once() {
    let mut root = root_with_mods(vec![
        make_mod("ALPHA", "0", "0"),
        make_mod("BETA", "1", "1"),
        make_mod("GAMMA", "2", "2"),
        make_mod("DELTA", "3", "3"),
    ]);
    let order = vec![
        "gamma".to_string(),
        "missing".to_string(),
        "alpha".to_string(),
        "GAMMA".to_string(),
    ];
    reorder_mods(&mut root, &order);
    let mods = data_mods(&root);
    let mut names: Vec<String> = mods.iter().map(name_of).collect();
    assert_eq!(names[0], "GAMMA");
    assert_eq!(priority_of(&mods[0]), "0");
    assert_eq!(names[1], "ALPHA");
    assert_eq!(priority_of(&mods[1]), "2");
    names.sort();
    assert_eq!(names, vec!["ALPHA", "BETA", "DELTA", "GAMMA"]);
}
