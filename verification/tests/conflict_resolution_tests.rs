use pulsar::conflict_resolution::{move_dir_safely_with, resolve_conflict_in_paths};
use std::cell::RefCell;

#[test]
fn move_dir_safely_with_covers_rename_copy_and_remove_paths() {
    let renamed = RefCell::new(false);
    move_dir_safely_with(
        "/r/src_mod",
        "/r/dest_mod",
        |_a: &str, _b: &str| {
            *renamed.borrow_mut() = true;
            Ok(())
        },
        |_p: &str| -> bool { panic!("exists should not run after successful rename") },
        |_p: &str| -> Result<(), String> { panic!("create_dir_all should not run after successful rename") },
        |_a: &str, _b: &str| -> Result<(), String> { panic!("copy_dir should not run after successful rename") },
        |_p: &str| -> Result<(), String> { panic!("remove_dir_all should not run after successful rename") },
    )
    .expect("rename success should short-circuit");
    assert!(*renamed.borrow());

    let log = RefCell::new(Vec::<String>::new());
    move_dir_safely_with(
        "/r/src_mod",
        "/r/dest_mod",
        |_a: &str, _b: &str| Err("rename failed".to_string()),
        |_p: &str| false,
        |p: &str| {
            log.borrow_mut().push(format!("create {p}"));
            Ok(())
        },
        |a: &str, b: &str| {
            log.borrow_mut().push(format!("copy {a} {b}"));
            Ok(())
        },
        |p: &str| {
            log.borrow_mut().push(format!("remove {p}"));
            Ok(())
        },
    )
    .expect("fallback path should succeed");
    assert_eq!(
        *log.borrow(),
        vec!["create /r/dest_mod", "copy /r/src_mod /r/dest_mod", "remove /r/src_mod"]
    );
}

#[test]
fn move_dir_safely_with_propagates_copy_and_remove_errors() {
    let err = move_dir_safely_with(
        "/r/src_mod",
        "/r/dest_mod",
        |_a: &str, _b: &str| Err("rename failed".to_string()),
        |_p: &str| true,
        |_p: &str| -> Result<(), String> { panic!("existing destination is not created") },
        |_a: &str, _b: &str| Err("copy failed".to_string()),
        |_p: &str| Ok(()),
    )
    .expect_err("copy failure should bubble");
    assert_eq!(err, "copy failed");

    let err = move_dir_safely_with(
        "/r/src_mod",
        "/r/dest_mod",
        |_a: &str, _b: &str| Err("rename failed".to_string()),
        |_p: &str| true,
        |_p: &str| Ok(()),
        |_a: &str, _b: &str| Ok(()),
        |_p: &str| Err("remove failed".to_string()),
    )
    .expect_err("remove failure should bubble");
    assert_eq!(err, "Failed to remove source after copy: remove failed");

    let err = move_dir_safely_with(
        "/r/src_mod",
        "/r/not_a_dir/dest_mod",
        |_a: &str, _b: &str| Err("rename failed".to_string()),
        |_p: &str| false,
        |_p: &str| Err("Not a directory (os error 20)".to_string()),
        |_a: &str, _b: &str| -> Result<(), String> { panic!("no copy after a failed create") },
        |_p: &str| Ok(()),
    )
    .expect_err("expected create dir error");
    assert_eq!(err, "Failed to create dest dir: Not a directory (os error 20)");
}

#[test]
fn resolve_conflict_replace_true_replaces_old_mod_and_moves_new() {
    let log = RefCell::new(Vec::<String>::new());
    resolve_conflict_in_paths(
        "/g/MODS",
        "NewMod",
        "OldMod",
        "/s/conflict_1/NewMod",
        true,
        |p: &str| p == "/g/MODS/OldMod",
        |p: &str| {
            log.borrow_mut().push(format!("remove {p}"));
            Ok(())
        },
        |a: &str, b: &str| {
            log.borrow_mut().push(format!("move {a} {b}"));
            Ok(())
        },
        |p: &str| log.borrow_mut().push(format!("tidy {p}")),
    )
    .expect("replace should succeed");
    assert_eq!(
        *log.borrow(),
        vec![
            "remove /g/MODS/OldMod",
            "move /s/conflict_1/NewMod /g/MODS/NewMod",
            "tidy /s/conflict_1/NewMod",
        ]
    );
}

#[test]
fn resolve_conflict_replace_false_removes_temp_mod_and_empty_parent() {
    let log = RefCell::new(Vec::<String>::new());
    resolve_conflict_in_paths(
        "/g/MODS",
        "NewMod",
        "OldMod",
        "/s/conflict_1/NewMod",
        false,
        |_p: &str| -> bool { panic!("keeping the old mod checks nothing") },
        |p: &str| {
            log.borrow_mut().push(format!("remove {p}"));
            Ok(())
        },
        |_a: &str, _b: &str| -> Result<(), String> { panic!("nothing is moved") },
        |p: &str| log.borrow_mut().push(format!("tidy {p}")),
    )
    .expect("expected temp cleanup success");
    assert_eq!(
        *log.borrow(),
        vec!["remove /s/conflict_1/NewMod", "tidy /s/conflict_1/NewMod"]
    );
}

#[test]
fn resolve_conflict_replace_true_reports_old_mod_removal_errors() {
    let err = resolve_conflict_in_paths(
        "/g/MODS",
        "NewMod",
        "OldMod",
        "/s/c/NewMod",
        true,
        |_p: &str| true,
        |_p: &str| Err("Not a directory (os error 20)".to_string()),
        |_a: &str, _b: &str| -> Result<(), String> { panic!("no move after a failed removal") },
        |_p: &str| panic!("no tidying after a failure"),
    )
    .expect_err("expected old mod removal error");
    assert_eq!(err, "Failed to remove old mod: Not a directory (os error 20)");
}

#[test]
fn resolve_conflict_replace_false_reports_temp_cleanup_errors() {
    let err = resolve_conflict_in_paths(
        "/g/MODS",
        "NewMod",
        "OldMod",
        "/s/c/NewMod",
        false,
        |_p: &str| true,
        |_p: &str| Err("Not a directory (os error 20)".to_string()),
        |_a: &str, _b: &str| Ok(()),
        |_p: &str| panic!("no tidying after a failure"),
    )
    .expect_err("expected temp cleanup error");
    assert_eq!(err, "Failed to cleanup temp mod folder: Not a directory (os error 20)");
}

#[test]
fn resolve_conflict_replace_true_propagates_move_errors() {
    let err = resolve_conflict_in_paths(
        "/g/MODS",
        "NewMod",
        "OldMod",
        "/s/c/NewMod",
        true,
        |_p: &str| false,
        |_p: &str| -> Result<(), String> { panic!("a missing old mod is not removed") },
        |_a: &str, _b: &str| Err("copy failed".to_string()),
        |_p: &str| panic!("no tidying after a failure"),
    )
    .expect_err("move failure should bubble");
    assert_eq!(err, "copy failed");
}
