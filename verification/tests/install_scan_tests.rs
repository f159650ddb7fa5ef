use pulsar::install_scan::{
    add_unique_op, build_deploy_ops, folder_name_for_path, push_unique_op, scan_dir_decision,
    scan_for_installable_mods, select_items_to_process, DeployOp, ScanDecision, ScanEntry, SourceProbe,
};

fn present(installable: &[&str]) -> SourceProbe {
    SourceProbe {
        exists: true,
        installable: installable.iter().map(|s| s.to_string()).collect(),
    }
}

fn missing() -> SourceProbe {
    SourceProbe {
        exists: false,
        installable: Vec::new(),
    }
}

fn entry(path: &str, is_dir: bool) -> ScanEntry {
    ScanEntry {
        path: path.to_string(),
        is_dir,
    }
}

#[test]
fn build_ops_errors_when_root_name_is_missing() {
    let err = build_deploy_ops("/", vec![".".to_string()], false, &vec![present(&[])])
        .expect_err("root path should not have a folder name");
    assert_eq!(err, "Invalid path");
}

#[test]
fn folder_name_for_path_extracts_name_and_rejects_root() {
    assert_eq!(
        folder_name_for_path("/tmp/Example").expect("folder name should exist"),
        "Example"
    );
    let err = folder_name_for_path("/").expect_err("root path should be invalid");
    assert_eq!(err, "Invalid path");
}

#[test]
fn push_unique_op_deduplicates_case_insensitively() {
    let mut ops = vec![DeployOp {
        source: "/tmp/A".to_string(),
        dest_name: "Alpha".to_string(),
    }];

    push_unique_op(&mut ops, "/tmp/a".to_string(), "alpha".to_string());
    push_unique_op(&mut ops, "/tmp/B".to_string(), "Beta".to_string());

    assert_eq!(ops.len(), 2);
    assert_eq!(ops[0].dest_name, "Alpha");
    assert_eq!(ops[1].dest_name, "Beta");
}

#[test]
fn add_unique_op_derives_name_and_rejects_invalid_root_paths() {
    let mut ops = Vec::new();
    add_unique_op(&mut ops, "/tmp/Gamma".to_string()).expect("valid path should succeed");
    assert_eq!(ops.len(), 1);
    assert_eq!(ops[0].dest_name, "Gamma");

    let err = add_unique_op(&mut ops, "/".to_string()).expect_err("root path should be invalid");
    assert_eq!(err, "Invalid path");
}

#[test]
fn build_ops_skips_missing_and_deduplicates_case_insensitive() {
    let ops = build_deploy_ops(
        "/lib/src",
        vec!["ModA".to_string(), "Gone".to_string(), "moda".to_string()],
        false,
        &vec![present(&[]), missing(), present(&[])],
    )
    .expect("build should succeed");
    assert_eq!(ops.len(), 1);
    assert_eq!(ops[0].source, "/lib/src/ModA");
    assert_eq!(ops[0].dest_name, "ModA");
}

#[test]
fn build_ops_flattens_nested_roots_and_falls_back_to_the_item() {
    let ops = build_deploy_ops(
        "/lib/src",
        vec!["Bundle".to_string(), "Plain".to_string(), ".".to_string()],
        true,
        &vec![present(&["OptionA", "Deep/OptionB"]), present(&[]), present(&["."])],
    )
    .expect("build should succeed");
    let got: Vec<(String, String)> = ops
        .iter()
        .map(|op| (op.source.clone(), op.dest_name.clone()))
        .collect();
    assert_eq!(
        got,
        vec![
            ("/lib/src/Bundle/OptionA".to_string(), "OptionA".to_string()),
            ("/lib/src/Bundle/Deep/OptionB".to_string(), "OptionB".to_string()),
            ("/lib/src/Plain".to_string(), "Plain".to_string()),
            ("/lib/src".to_string(), "src".to_string()),
        ]
    );
}

#[test]
fn scan_dir_decision_marks_roots_by_folder_or_extension() {
    let by_folder = scan_dir_decision(
        "/lib/pack/ModA",
        "/lib/pack",
        &vec![entry("/lib/pack/ModA/textures", true), entry("/lib/pack/ModA/readme.txt", false)],
    );
    assert!(matches!(by_folder, ScanDecision::ModRoot(Some(ref c)) if c == "ModA"));

    let by_file = scan_dir_decision(
        "/lib/pack",
        "/lib/pack",
        &vec![entry("/lib/pack/SHIP.MBIN", false)],
    );
    assert!(matches!(by_file, ScanDecision::ModRoot(Some(ref c)) if c == "."));

    let nested = scan_dir_decision(
        "/lib/pack/a/b",
        "/lib/pack",
        &vec![entry("/lib/pack/a/b/x.Exml", false)],
    );
    assert!(matches!(nested, ScanDecision::ModRoot(Some(ref c)) if c == "a/b"));

    let outside = scan_dir_decision("/other/dir", "/lib/pack", &vec![entry("/other/dir/UI", true)]);
    assert!(matches!(outside, ScanDecision::ModRoot(None)));
}

#[test]
fn scan_dir_decision_descends_into_subfolders_in_order() {
    let out = scan_dir_decision(
        "/lib/pack",
        "/lib/pack",
        &vec![
            entry("/lib/pack/docs", true),
            entry("/lib/pack/readme.md", false),
            entry("/lib/pack/Bundle", true),
        ],
    );
    match out {
        ScanDecision::Descend(dirs) => assert_eq!(
            dirs,
            vec!["/lib/pack/docs".to_string(), "/lib/pack/Bundle".to_string()]
        ),
        ScanDecision::ModRoot(_) => panic!("no entry marks a mod root"),
    }
}

#[test]
fn select_items_to_process_lists_or_keeps_the_selection() {
    let listed = select_items_to_process("/src", &[], |_p: &str| Ok(vec!["A".to_string()]));
    assert_eq!(listed, Ok(vec!["A".to_string()]));
    let dot = select_items_to_process("/src", &[".".to_string()], |_p: &str| Err("unreadable".to_string()));
    assert_eq!(dot, Err("unreadable".to_string()));
    let kept = select_items_to_process("/src", &["Chosen".to_string()], |_p: &str| Ok(Vec::new()));
    assert_eq!(kept, Ok(vec!["Chosen".to_string()]));
}

/// A folder tree: each folder path with its entries (path, is a folder).
fn tree(folders: &[(&str, &[(&str, bool)])]) -> impl Fn(&str) -> Option<Vec<ScanEntry>> {
    let owned: Vec<(String, Vec<ScanEntry>)> = folders
        .iter()
        .map(|(d, es)| (d.to_string(), es.iter().map(|(p, is_dir)| entry(p, *is_dir)).collect()))
        .collect();
    move |dir: &str| owned.iter().find(|(d, _)| d == dir).map(|(_, es)| es.clone())
}

#[test]
fn scan_marks_root_when_game_structure_folder_exists() {
    let read = tree(&[("/r", &[("/r/AUDIO", true)]), ("/r/AUDIO", &[])]);
    assert_eq!(scan_for_installable_mods("/r", "/r", &read), vec![".".to_string()]);
}

#[test]
fn scan_finds_nested_candidates_as_relative_paths() {
    let read = tree(&[
        ("/r", &[("/r/bundle", true)]),
        ("/r/bundle", &[("/r/bundle/mod_a", true), ("/r/bundle/mod_b", true)]),
        ("/r/bundle/mod_a", &[("/r/bundle/mod_a/METADATA", true)]),
        ("/r/bundle/mod_b", &[("/r/bundle/mod_b/UI", true)]),
    ]);
    assert_eq!(
        scan_for_installable_mods("/r", "/r", &read),
        vec!["bundle/mod_a".to_string(), "bundle/mod_b".to_string()]
    );
}

#[test]
fn scan_detects_supported_game_file_extensions_case_insensitive() {
    let read = tree(&[("/r", &[("/r/MyFile.MBIN", false)])]);
    assert_eq!(scan_for_installable_mods("/r", "/r", &read), vec![".".to_string()]);
}

#[test]
fn scan_returns_empty_for_irrelevant_tree() {
    let read = tree(&[
        ("/r", &[("/r/readme.txt", false), ("/r/LICENSE", false), ("/r/notes", true)]),
        ("/r/notes", &[]),
    ]);
    assert!(scan_for_installable_mods("/r", "/r", &read).is_empty());
}

#[test]
fn scan_returns_empty_when_read_dir_fails_or_strip_prefix_misses() {
    let read = tree(&[("/r", &[("/r/UI", true)])]);
    assert!(scan_for_installable_mods("/missing", "/missing", &read).is_empty());
    assert!(scan_for_installable_mods("/r", "/elsewhere", &read).is_empty());
}

#[test]
fn scan_stops_at_first_mod_root_and_does_not_descend() {
    let read = tree(&[
        ("/r", &[("/r/nested", true), ("/r/UI", true)]),
        ("/r/nested", &[("/r/nested/METADATA", true)]),
    ]);
    assert_eq!(scan_for_installable_mods("/r", "/r", &read), vec![".".to_string()]);
}

#[test]
fn scan_ignores_paths_over_the_length_limit() {
    let long = format!("/r/{}", "x".repeat(5000));
    let listing = vec![entry(&long, true)];
    let read = move |dir: &str| -> Option<Vec<ScanEntry>> {
        if dir == "/r" {
            Some(listing.clone())
        } else {
            Some(vec![entry(&format!("{dir}/UI"), true)])
        }
    };
    assert!(scan_for_installable_mods("/r", "/r", &read).is_empty());
}

#[test]
fn paths_are_read_component_by_component() {
    assert_eq!(folder_name_for_path("/tmp/Example/."), Ok("Example".to_string()));
    assert_eq!(folder_name_for_path("/tmp/Example//"), Ok("Example".to_string()));
    let entries = vec![ScanEntry { path: "/base//mods/A/GLOBALS".to_string(), is_dir: true }];
    match scan_dir_decision("/base//mods/A", "/base/mods/", &entries) {
        ScanDecision::ModRoot(c) => assert_eq!(c, Some("A".to_string())),
        ScanDecision::Descend(_) => panic!("A is a mod root"),
    }
    match scan_dir_decision("/base/modsX/A", "/base/mods", &entries) {
        ScanDecision::ModRoot(c) => assert_eq!(c, None),
        ScanDecision::Descend(_) => panic!("A is a mod root"),
    }
}
