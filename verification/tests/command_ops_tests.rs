use pulsar::command_ops::{
    library_rename_decision, library_rename_paths, maybe_remove_mod_folder, mod_folder_path,
    mods_root_from_game_path, settings_file_from_game_path, sync_library_folder_rename,
    validate_rename_paths, LibraryRenameSync,
};
use std::cell::RefCell;

#[test]
fn path_builders_append_expected_segments() {
    let base = "/tmp/NMS";
    assert_eq!(mods_root_from_game_path(base), "/tmp/NMS/GAMEDATA/MODS");
    assert_eq!(mod_folder_path(base, "MyMod"), "/tmp/NMS/GAMEDATA/MODS/MyMod");
    let settings = settings_file_from_game_path(base);
    assert!(settings.ends_with("Binaries/SETTINGS/GCMODSETTINGS.MXML"));
}

#[test]
fn validate_rename_paths_covers_errors_and_success() {
    assert_eq!(
        validate_rename_paths(false, false).expect_err("expected missing source"),
        "Original mod folder not found."
    );
    assert_eq!(
        validate_rename_paths(true, true).expect_err("expected duplicate target"),
        "A mod with the new name already exists."
    );
    validate_rename_paths(true, false).expect("expected valid rename paths");
}

#[test]
fn library_rename_helpers_build_paths_and_decide_sync() {
    let (old_path, new_path) = library_rename_paths("/lib", "source.zip", "OldMod", "NewMod");
    assert!(old_path.ends_with("source.zip_unpacked/OldMod"));
    assert!(new_path.ends_with("source.zip_unpacked/NewMod"));
}

#[test]
fn library_rename_decision_covers_all_cases() {
    assert_eq!(library_rename_decision(false, false), Some(LibraryRenameSync::SourceMissing));
    assert_eq!(library_rename_decision(false, true), Some(LibraryRenameSync::SourceMissing));
    assert_eq!(library_rename_decision(true, true), Some(LibraryRenameSync::TargetExists));
    assert_eq!(library_rename_decision(true, false), None);
}

#[test]
fn sync_library_folder_rename_covers_missing_conflict_success_and_error() {
    let renames = RefCell::new(Vec::<(String, String)>::new());
    let missing = sync_library_folder_rename(
        "/lib",
        "archive.zip",
        "Old",
        "New",
        |_p: &str| false,
        |a: &str, b: &str| {
            renames.borrow_mut().push((a.to_string(), b.to_string()));
            Ok(())
        },
    );
    assert_eq!(missing, Ok(LibraryRenameSync::SourceMissing));

    let conflict = sync_library_folder_rename(
        "/lib",
        "archive.zip",
        "Old",
        "New",
        |_p: &str| true,
        |_a: &str, _b: &str| Ok(()),
    );
    assert_eq!(conflict, Ok(LibraryRenameSync::TargetExists));
    assert!(renames.borrow().is_empty());

    let renamed = sync_library_folder_rename(
        "/lib",
        "archive.zip",
        "Old",
        "New",
        |p: &str| p.ends_with("Old"),
        |a: &str, b: &str| {
            renames.borrow_mut().push((a.to_string(), b.to_string()));
            Ok(())
        },
    );
    assert_eq!(renamed, Ok(LibraryRenameSync::Renamed));
    assert_eq!(
        renames.borrow()[0],
        (
            "/lib/archive.zip_unpacked/Old".to_string(),
            "/lib/archive.zip_unpacked/New".to_string()
        )
    );

    let err = sync_library_folder_rename(
        "/lib",
        "archive.zip",
        "Old",
        "New",
        |p: &str| p.ends_with("Old"),
        |_a: &str, _b: &str| Err("denied".to_string()),
    )
    .expect_err("rename failure should be reported");
    assert_eq!(err, "Failed to sync rename to Library: denied");
}

#[test]
fn maybe_remove_mod_folder_reports_missing_removed_and_errors() {
    let missing = maybe_remove_mod_folder("/mods/ModA", "ModA", |_p: &str| false, |_p: &str| Ok(()));
    assert_eq!(missing, Ok(false));
    let removed = maybe_remove_mod_folder("/mods/ModA", "ModA", |_p: &str| true, |_p: &str| Ok(()));
    assert_eq!(removed, Ok(true));
    let err = maybe_remove_mod_folder("/mods/ModA", "ModA", |_p: &str| true, |_p: &str| {
        Err("not a directory".to_string())
    })
    .expect_err("removal failure should be reported");
    assert!(err.contains("Failed to delete mod folder 'ModA'"));
    assert_eq!(err, "Failed to delete mod folder 'ModA': not a directory");
}
