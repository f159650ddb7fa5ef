use pulsar::install_archive_flow::{
    copy_archive_to_downloads, library_folder_name_for_archive, scan_library_mod_path,
};
use pulsar::install_command_core::{
    archive_path_from_input, build_install_archive_context, copy_archive_to_downloads_blocking,
    extract_archive_if_needed, resolve_conflict_with, scan_library_mod_path_blocking,
};
use std::cell::RefCell;

#[test]
fn library_folder_name_uses_archive_filename() {
    let folder =
        library_folder_name_for_archive("/tmp/mods/cool-mod.zip").expect("expected name");
    assert_eq!(folder, "cool-mod.zip_unpacked");
}

#[test]
fn library_folder_name_for_archive_errors_without_filename() {
    let err = library_folder_name_for_archive("/")
        .expect_err("root path should not have an archive filename");
    assert_eq!(err, "Invalid archive filename");
}

#[test]
fn resolve_conflict_with_requires_game_path() {
    let out = resolve_conflict_with(
        || None,
        "new",
        "old",
        "/tmp/mod",
        true,
        |_mods: &str, _new: &str, _old: &str, _temp: &str, _replace: bool| Ok(()),
    );
    assert_eq!(
        out.expect_err("missing game path should error"),
        "Could not find game path."
    );
}

#[test]
fn resolve_conflict_with_passes_expected_arguments() {
    let called = RefCell::new(None::<(String, String, String, String, bool)>);
    let out = resolve_conflict_with(
        || Some("/game".to_string()),
        "new_mod",
        "old_mod",
        "/tmp/new_mod",
        false,
        |mods: &str, new_name: &str, old_name: &str, temp_path: &str, replace: bool| {
            *called.borrow_mut() = Some((
                mods.to_string(),
                new_name.to_string(),
                old_name.to_string(),
                temp_path.to_string(),
                replace,
            ));
            Ok(())
        },
    );
    assert!(out.is_ok());
    let args = called
        .into_inner()
        .expect("expected resolver to receive arguments");
    assert_eq!(args.0, "/game/GAMEDATA/MODS");
    assert_eq!(args.1, "new_mod");
    assert_eq!(args.2, "old_mod");
    assert_eq!(args.3, "/tmp/new_mod");
    assert!(!args.4);
}

#[test]
fn resolve_conflict_with_propagates_resolver_error() {
    let out = resolve_conflict_with(
        || Some("/game".to_string()),
        "new_mod",
        "old_mod",
        "/tmp/new_mod",
        true,
        |_mods: &str, _new_name: &str, _old_name: &str, _temp_path: &str, _replace: bool| {
            Err("resolver failed".to_string())
        },
    );
    assert_eq!(
        out.expect_err("resolver error should bubble"),
        "resolver failed"
    );
}

#[test]
fn archive_path_from_input_roundtrips() {
    assert_eq!(archive_path_from_input("/tmp/archive.zip"), "/tmp/archive.zip");
}

#[test]
fn archive_path_from_input_decodes_file_urls() {
    assert_eq!(
        archive_path_from_input("file:///tmp/Ship%20Pack.zip"),
        "/tmp/Ship Pack.zip"
    );
}

#[test]
fn archive_path_from_input_keeps_other_urls_as_text() {
    assert_eq!(
        archive_path_from_input("https://example.invalid/a.zip"),
        "https://example.invalid/a.zip"
    );
}

#[test]
fn build_install_archive_context_derives_expected_paths() {
    let out = build_install_archive_context("/downloads/Example.zip", "/library")
        .expect("expected install archive context");
    assert_eq!(out.final_archive_path_str, "/downloads/Example.zip");
    assert_eq!(out.library_id, "Example.zip_unpacked");
    assert_eq!(out.library_mod_path, "/library/Example.zip_unpacked");
}

#[test]
fn build_install_archive_context_errors_when_archive_name_missing() {
    let out = build_install_archive_context("/", "/library");
    assert!(out.is_err());
}

#[test]
fn copy_archive_to_downloads_keeps_archives_already_there() {
    let copied = RefCell::new(Vec::<(String, String)>::new());
    let out = copy_archive_to_downloads(
        "/home/u/Downloads/mod.zip",
        "/home/u/Downloads",
        |_p: &str| true,
        |_p: &str| Ok(()),
        |p: &str| Ok(p.to_string()),
        |a: &str, b: &str| {
            copied.borrow_mut().push((a.to_string(), b.to_string()));
            Ok(())
        },
    );
    assert_eq!(out, Ok(("/home/u/Downloads/mod.zip".to_string(), true)));
    assert!(copied.borrow().is_empty());
}

#[test]
fn copy_archive_to_downloads_copies_outside_archives_and_reports_errors() {
    let created = RefCell::new(Vec::<String>::new());
    let out = copy_archive_to_downloads(
        "/tmp/incoming/mod.zip",
        "/home/u/Downloads",
        |_p: &str| false,
        |p: &str| {
            created.borrow_mut().push(p.to_string());
            Ok(())
        },
        |p: &str| Ok(p.to_string()),
        |_a: &str, _b: &str| Ok(()),
    );
    assert_eq!(out, Ok(("/home/u/Downloads/mod.zip".to_string(), false)));
    assert_eq!(*created.borrow(), vec!["/home/u/Downloads".to_string()]);

    let near_miss = copy_archive_to_downloads(
        "/home/u/Downloads2/mod.zip",
        "/home/u/Downloads",
        |_p: &str| true,
        |_p: &str| Ok(()),
        |p: &str| Ok(p.to_string()),
        |_a: &str, _b: &str| Ok(()),
    );
    assert_eq!(near_miss, Ok(("/home/u/Downloads/mod.zip".to_string(), false)));

    let err = copy_archive_to_downloads(
        "/tmp/mod.zip",
        "/dl",
        |_p: &str| false,
        |_p: &str| Err("denied".to_string()),
        |p: &str| Ok(p.to_string()),
        |_a: &str, _b: &str| Ok(()),
    );
    assert_eq!(
        err,
        Err("Failed to create downloads directory '/dl': denied".to_string())
    );

    let err = copy_archive_to_downloads(
        "/tmp/mod.zip",
        "/dl",
        |_p: &str| true,
        |_p: &str| Ok(()),
        |_p: &str| Err("missing".to_string()),
        |_a: &str, _b: &str| Err("no such file".to_string()),
    );
    assert_eq!(
        err,
        Err("Failed to copy archive from '/tmp/mod.zip' to '/dl/mod.zip': no such file".to_string())
    );

    let err = copy_archive_to_downloads(
        "/",
        "/dl",
        |_p: &str| true,
        |_p: &str| Ok(()),
        |_p: &str| Err("missing".to_string()),
        |_a: &str, _b: &str| Ok(()),
    );
    assert_eq!(err, Err("Invalid filename".to_string()));

    let blocking = copy_archive_to_downloads_blocking(
        "/tmp/incoming/mod.zip",
        "/dl",
        |_p: &str| true,
        |_p: &str| Ok(()),
        |p: &str| Ok(p.to_string()),
        |_a: &str, _b: &str| Ok(()),
    );
    assert_eq!(blocking, Ok("/dl/mod.zip".to_string()));
}

#[test]
fn extract_archive_if_needed_skips_existing_library_folders() {
    let ran = RefCell::new(0usize);
    let out = extract_archive_if_needed("/dl/a.zip", "/lib/a.zip_unpacked", |_p: &str| true, |_a: &str, _b: &str| {
        *ran.borrow_mut() += 1;
        Ok(())
    });
    assert_eq!(out, Ok(()));
    assert_eq!(*ran.borrow(), 0);

    let out = extract_archive_if_needed("/dl/a.zip", "/lib/a.zip_unpacked", |_p: &str| false, |a: &str, b: &str| {
        assert_eq!(a, "/dl/a.zip");
        assert_eq!(b, "/lib/a.zip_unpacked");
        Err("corrupt".to_string())
    });
    assert_eq!(out, Err("corrupt".to_string()));
}

#[test]
fn scan_library_mod_path_lists_folders_and_installables() {
    let out = scan_library_mod_path(
        "/lib/a.zip_unpacked",
        |dir: &str, base: &str| {
            assert_eq!(dir, base);
            vec!["ModA".to_string()]
        },
        |_dir: &str| Ok(vec!["ModA".to_string(), "Docs".to_string()]),
    );
    assert_eq!(
        out,
        Ok((
            vec!["ModA".to_string(), "Docs".to_string()],
            vec!["ModA".to_string()]
        ))
    );
    let err = scan_library_mod_path_blocking(
        "/lib/a.zip_unpacked",
        |_dir: &str, _base: &str| Vec::new(),
        |_dir: &str| Err("gone".to_string()),
    );
    assert_eq!(
        err,
        Err("Failed to read extracted archive directory '/lib/a.zip_unpacked': gone".to_string())
    );
}
