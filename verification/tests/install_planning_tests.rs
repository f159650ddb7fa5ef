use pulsar::install_finalize_flow::build_deploy_candidates_with;
use pulsar::install_planning::{
    decide_archive_flow, plan_install_actions, ArchiveDecision, DeployCandidate,
    PlannedInstallAction,
};
use pulsar::install_scan::DeployOp;

#[test]
fn decide_archive_flow_prefers_installable_selection_when_multiple() {
    let installable = vec!["A".to_string(), "B".to_string()];
    let folders = vec!["X".to_string()];
    let decision = decide_archive_flow(&installable, &folders, "lib-id", "/tmp/a.zip");

    match decision {
        ArchiveDecision::WaitForSelection(analysis) => {
            assert!(analysis.selection_needed);
            assert_eq!(
                analysis.available_folders,
                Some(vec!["A".to_string(), "B".to_string()])
            );
        }
        _ => panic!("expected selection"),
    }
}

#[test]
fn decide_archive_flow_finalizes_single_installable_as_flattened() {
    let installable = vec!["OnlyOne".to_string()];
    let decision = decide_archive_flow(&installable, &[], "lib-id", "/tmp/a.zip");
    match decision {
        ArchiveDecision::Finalize(req) => {
            assert_eq!(req.selected_folders, vec!["OnlyOne".to_string()]);
            assert!(req.flatten_paths);
        }
        _ => panic!("expected finalize"),
    }
}

#[test]
fn decide_archive_flow_uses_folder_selection_when_no_installables() {
    let folders = vec!["A".to_string(), "B".to_string(), "C".to_string()];
    let decision = decide_archive_flow(&[], &folders, "lib-id", "/tmp/a.zip");
    match decision {
        ArchiveDecision::WaitForSelection(analysis) => {
            assert_eq!(analysis.available_folders, Some(folders));
            assert_eq!(analysis.temp_id.as_deref(), Some("lib-id"));
        }
        _ => panic!("expected selection"),
    }
}

#[test]
fn decide_archive_flow_defaults_to_non_flattened_finalize() {
    let decision = decide_archive_flow(&[], &[], "lib-id", "/tmp/a.zip");
    match decision {
        ArchiveDecision::Finalize(req) => {
            assert!(req.selected_folders.is_empty());
            assert!(!req.flatten_paths);
        }
        _ => panic!("expected finalize"),
    }
}

#[test]
fn decide_archive_flow_finalizes_single_folder_without_flattening() {
    let decision = decide_archive_flow(&[], &["Only".to_string()], "lib-id", "/tmp/a.zip");
    match decision {
        ArchiveDecision::Finalize(req) => {
            assert!(req.selected_folders.is_empty());
            assert!(!req.flatten_paths);
        }
        _ => panic!("expected finalize"),
    }
}

#[test]
fn plan_install_actions_prioritizes_mod_id_conflicts_then_overwrite_then_direct() {
    let candidates = vec![
        DeployCandidate {
            source: "/src/one".to_string(),
            dest_name: "one".to_string(),
            mod_id: Some("42".to_string()),
            dest_exists: false,
        },
        DeployCandidate {
            source: "/src/two".to_string(),
            dest_name: "two".to_string(),
            mod_id: None,
            dest_exists: true,
        },
        DeployCandidate {
            source: "/src/three".to_string(),
            dest_name: "three".to_string(),
            mod_id: None,
            dest_exists: false,
        },
    ];
    let installed = vec![("42".to_string(), "existing-folder".to_string())];
    let actions = plan_install_actions(candidates, &installed, "/mods", "/staging/conflict_1");

    assert!(matches!(
        &actions[0],
        PlannedInstallAction::StageConflict {
            old_mod_folder_name,
            new_mod_name,
            ..
        } if old_mod_folder_name == "existing-folder" && new_mod_name == "one"
    ));
    assert!(matches!(
        &actions[1],
        PlannedInstallAction::StageConflict {
            old_mod_folder_name,
            new_mod_name,
            ..
        } if old_mod_folder_name == "two" && new_mod_name == "two"
    ));
    assert!(matches!(
        &actions[2],
        PlannedInstallAction::DeployDirect {
            dest_name,
            final_dest_path,
            ..
        } if dest_name == "three" && final_dest_path == "/mods/three"
    ));
    assert!(matches!(
        &actions[0],
        PlannedInstallAction::StageConflict { staged_path, .. } if staged_path == "/staging/conflict_1/one"
    ));
}

#[test]
fn build_deploy_candidates_maps_fields_and_dest_existence() {
    let ops = vec![
        DeployOp {
            source: "/root/src/mod_a".to_string(),
            dest_name: "mod_a".to_string(),
        },
        DeployOp {
            source: "/root/src/mod_b".to_string(),
            dest_name: "mod_b".to_string(),
        },
    ];
    let candidates = build_deploy_candidates_with(
        ops,
        "/root/mods",
        |path: &str| path.rsplit('/').next().map(|n| format!("id_{}", n)),
        |path: &str| path == "/root/mods/mod_a",
    );
    assert_eq!(candidates.len(), 2);
    assert!(candidates[0].dest_exists);
    assert!(!candidates[1].dest_exists);
    assert_eq!(candidates[0].mod_id.as_deref(), Some("id_mod_a"));
    assert_eq!(candidates[1].mod_id.as_deref(), Some("id_mod_b"));
}
