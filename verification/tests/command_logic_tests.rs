use pulsar::command_logic::{
    build_download_result, download_progress, download_step_label, map_update_mod_id_error,
    mod_info_path_for, preferred_file_time, secs_or_zero, timestamp_millis_or_zero, unix_millis_or_zero, unix_secs_or_zero,
};
use std::io;
use std::time::{Duration, UNIX_EPOCH};

#[test]
fn mod_info_path_for_builds_expected_path() {
    let path = mod_info_path_for("/game", "MyMod");
    assert!(path.ends_with("GAMEDATA/MODS/MyMod/mod_info.json"));
    assert_eq!(path, "/game/GAMEDATA/MODS/MyMod/mod_info.json");
}

#[test]
fn map_update_mod_id_error_rewrites_not_found_message() {
    let msg = map_update_mod_id_error("TestMod", "file not found for path x".to_string());
    assert_eq!(msg, "mod_info.json not found for mod 'TestMod'.");
}

#[test]
fn map_update_mod_id_error_passthrough_for_other_errors() {
    let msg = map_update_mod_id_error("TestMod", "permission denied".to_string());
    assert_eq!(msg, "permission denied");
}

#[test]
fn download_progress_handles_zero_and_computes_percent() {
    assert_eq!(download_progress(50, 0), None);
    assert_eq!(download_progress(50, 200), Some(25));
    assert_eq!(download_progress(200, 200), Some(100));
}

#[test]
fn download_step_label_formats_expected_text() {
    assert_eq!(download_step_label(42), "Downloading: 42%");
}

#[test]
fn preferred_file_time_uses_created_then_modified_then_now() {
    let created = UNIX_EPOCH + Duration::from_secs(10);
    let modified = UNIX_EPOCH + Duration::from_secs(20);
    let now = UNIX_EPOCH + Duration::from_secs(30);

    assert_eq!(preferred_file_time::<_, io::Error>(Ok(created), Ok(modified), now), created);
    assert_eq!(
        preferred_file_time(Err(io::Error::other("created")), Ok(modified), now),
        modified
    );
    assert_eq!(
        preferred_file_time(
            Err(io::Error::other("created")),
            Err(io::Error::other("modified")),
            now
        ),
        now
    );
}

#[test]
fn unix_secs_or_zero_handles_pre_unix_epoch() {
    assert_eq!(unix_secs_or_zero(UNIX_EPOCH + Duration::from_secs(7)), 7);
    assert_eq!(unix_secs_or_zero(UNIX_EPOCH - Duration::from_secs(1)), 0);
}

#[test]
fn build_download_result_maps_fields() {
    let out = build_download_result("/tmp/archive.zip", 123, 456);
    assert_eq!(out.path, "/tmp/archive.zip");
    assert_eq!(out.size, 123);
    assert_eq!(out.created_at, 456);
}

#[test]
fn secs_or_zero_maps_missing_to_zero() {
    assert_eq!(secs_or_zero(Some(12)), 12);
    assert_eq!(secs_or_zero(None), 0);
}

#[test]
fn download_progress_rounds_down() {
    assert_eq!(download_progress(1, 3), Some(33));
    assert_eq!(download_progress(0, 7), Some(0));
}

#[test]
fn timestamp_millis_falls_back_to_zero() {
    assert_eq!(timestamp_millis_or_zero(Some(1_700_000_000_123)), 1_700_000_000_123);
    assert_eq!(timestamp_millis_or_zero(None), 0);
    assert_eq!(timestamp_millis_or_zero(Some(u128::MAX)), 0);
    assert_eq!(timestamp_millis_or_zero(Some(i64::MAX as u128)), i64::MAX);
}

#[test]
fn unix_millis_or_zero_measures_from_the_epoch() {
    assert_eq!(unix_millis_or_zero(UNIX_EPOCH + Duration::from_millis(1_234)), 1_234);
    assert_eq!(unix_millis_or_zero(UNIX_EPOCH - Duration::from_millis(1)), 0);
}

#[test]
fn download_progress_without_total_never_multiplies() {
    assert_eq!(download_progress(u64::MAX, 0), None);
}
