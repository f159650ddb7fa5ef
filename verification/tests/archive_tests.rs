use pulsar::archive::{
    detect_archive_kind, extract_archive, run_rar_processing_loop, zip_entry_action,
    zip_progress_pct, ArchiveKind, ZipEntryAction,
};
use std::cell::{Cell, RefCell};

#[test]
fn detect_archive_kind_maps_supported_and_unsupported_extensions() {
    assert_eq!(
        detect_archive_kind("mod.zip").expect("zip should map"),
        ArchiveKind::Zip
    );
    assert_eq!(
        detect_archive_kind("mod.rar").expect("rar should map"),
        ArchiveKind::Rar
    );
    assert_eq!(
        detect_archive_kind("mod.7z").expect("7z should map"),
        ArchiveKind::SevenZ
    );

    let err = detect_archive_kind("mod.txt").expect_err("txt should fail");
    assert!(err.contains("Unsupported file type"));
}

#[test]
fn detect_archive_kind_ignores_case_and_reports_extension() {
    assert_eq!(detect_archive_kind("/dl/MOD.ZIP"), Ok(ArchiveKind::Zip));
    assert_eq!(detect_archive_kind("/dl/Mod.Rar"), Ok(ArchiveKind::Rar));
    assert_eq!(
        detect_archive_kind("/dl/mod.TXT"),
        Err("Unsupported file type: .txt".to_string())
    );
    assert_eq!(
        detect_archive_kind("/dl/noextension"),
        Err("Unsupported file type: .".to_string())
    );
}

#[test]
fn run_rar_processing_loop_emits_progress_until_complete() {
    let steps = RefCell::new(vec![true, true, false].into_iter());
    let progress = RefCell::new(Vec::<u64>::new());
    let mut step = || Ok(steps.borrow_mut().next().expect("step should exist"));
    let mut on_progress = |pct| progress.borrow_mut().push(pct);

    run_rar_processing_loop(&mut step, &mut on_progress).expect("rar loop should complete");

    assert_eq!(*progress.borrow(), vec![0, 0]);
}

#[test]
fn run_rar_processing_loop_propagates_errors_after_prior_progress() {
    let calls = Cell::new(0usize);
    let progress = RefCell::new(Vec::<u64>::new());
    let mut step = || {
        let call = calls.get();
        calls.set(call + 1);
        match call {
            0 => Ok(true),
            1 => Err("rar-step-failed".to_string()),
            _ => Ok(false),
        }
    };
    let mut on_progress = |pct| progress.borrow_mut().push(pct);

    let err =
        run_rar_processing_loop(&mut step, &mut on_progress).expect_err("rar loop should fail");

    assert_eq!(err, "rar-step-failed");
    assert_eq!(*progress.borrow(), vec![0]);
}

#[test]
fn zip_progress_pct_counts_finished_entries() {
    assert_eq!(zip_progress_pct(0, 4), 25);
    assert_eq!(zip_progress_pct(3, 4), 100);
    assert_eq!(zip_progress_pct(0, 3), 33);
}

#[test]
fn extract_archive_dispatches_by_kind_and_reports_failures() {
    let calls = RefCell::new(Vec::<String>::new());
    let created = RefCell::new(Vec::<String>::new());
    let out = extract_archive(
        "/dl/mod.zip",
        "/lib/mod.zip_unpacked",
        |_p: &str| false,
        |p: &str| {
            created.borrow_mut().push(p.to_string());
            Ok(())
        },
        |p: &str| Ok(format!("/abs{}", p)),
        |a: &str, d: &str| {
            calls.borrow_mut().push(format!("zip:{}:{}", a, d));
            Ok(())
        },
        |_a: &str, _d: &str| Err("rar should not run".to_string()),
        |_a: &str, _d: &str| Err("7z should not run".to_string()),
    );
    assert_eq!(out, Ok(()));
    assert_eq!(*created.borrow(), vec!["/lib/mod.zip_unpacked".to_string()]);
    assert_eq!(
        *calls.borrow(),
        vec!["zip:/abs/dl/mod.zip:/lib/mod.zip_unpacked".to_string()]
    );

    let err = extract_archive(
        "/dl/mod.zip",
        "/out",
        |_p: &str| false,
        |_p: &str| Err("no space".to_string()),
        |p: &str| Ok(p.to_string()),
        |_a: &str, _d: &str| Ok(()),
        |_a: &str, _d: &str| Ok(()),
        |_a: &str, _d: &str| Ok(()),
    );
    assert_eq!(err, Err("Could not create dest dir: no space".to_string()));

    let err = extract_archive(
        "/dl/mod.zip",
        "/out",
        |_p: &str| true,
        |_p: &str| Ok(()),
        |_p: &str| Err("missing".to_string()),
        |_a: &str, _d: &str| Ok(()),
        |_a: &str, _d: &str| Ok(()),
        |_a: &str, _d: &str| Ok(()),
    );
    assert_eq!(err, Err("Invalid archive path '/dl/mod.zip': missing".to_string()));

    let err = extract_archive(
        "/dl/mod.tar",
        "/out",
        |_p: &str| true,
        |_p: &str| Ok(()),
        |p: &str| Ok(p.to_string()),
        |_a: &str, _d: &str| Ok(()),
        |_a: &str, _d: &str| Ok(()),
        |_a: &str, _d: &str| Ok(()),
    );
    assert_eq!(err, Err("Unsupported file type: .tar".to_string()));

    let out = extract_archive(
        "/dl/mod.7z",
        "/out",
        |_p: &str| true,
        |_p: &str| Ok(()),
        |p: &str| Ok(p.to_string()),
        |_a: &str, _d: &str| Ok(()),
        |_a: &str, _d: &str| Ok(()),
        |a: &str, _d: &str| Err(format!("7z failed on {}", a)),
    );
    assert_eq!(out, Err("7z failed on /dl/mod.7z".to_string()));
}

#[test]
fn zip_entry_action_skips_unsafe_entries_and_places_the_rest() {
    assert_eq!(zip_entry_action("/out", 0, 4, None, Some("../evil".to_string())), ZipEntryAction::Skip);
    assert_eq!(
        zip_entry_action("/out", 0, 4, Some("Mod".to_string()), Some("Mod/".to_string())),
        ZipEntryAction::CreateFolder { path: "/out/Mod".to_string(), pct: 25 }
    );
    assert_eq!(
        zip_entry_action("/out/", 2, 3, Some("Mod/a.pak".to_string()), Some("Mod/a.pak".to_string())),
        ZipEntryAction::WriteFile { path: "/out/Mod/a.pak".to_string(), pct: 100 }
    );
    assert_eq!(
        zip_entry_action("/out", 1, 3, Some("x".to_string()), None),
        ZipEntryAction::WriteFile { path: "/out/x".to_string(), pct: 66 }
    );
}
