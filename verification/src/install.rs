//! The install commands over their providers: each hands its inputs to the
//! step that does the work and returns what it gives.
use vstd::prelude::*;
use crate::install_command_core::{resolve_conflict_with, resolve_outcome};
use crate::install_command_flow::{
    archive_install_outcome, install_mod_from_archive_with_progress_events, step_event_emitted,
};
use crate::models::{InstallProgressPayload, InstallationAnalysis, ModRenderData};

verus! {

/// Returns what the staging folder provider gives.
pub fn get_staging_dir_with_provider<F>(get_staging_dir: F) -> (r: Result<String, String>)
    where
        F: FnOnce() -> Result<String, String>,
    requires
        call_requires(get_staging_dir, ()),
    ensures
        call_ensures(get_staging_dir, (), r),
{
    get_staging_dir()
}

/// Returns what the mod list provider gives.
pub fn get_all_mods_for_render_with_provider<F>(get_mods: F) -> (r: Result<Vec<ModRenderData>, String>)
    where
        F: FnOnce() -> Result<Vec<ModRenderData>, String>,
    requires
        call_requires(get_mods, ()),
    ensures
        call_ensures(get_mods, (), r),
{
    get_mods()
}

/// Resolves a conflict: what `resolve_conflict_with` does.
pub fn resolve_conflict_with_provider<G, F>(
    new_mod_name: &str,
    old_mod_folder_name: &str,
    temp_mod_path_str: &str,
    replace: bool,
    find_game_path: G,
    resolve_conflict_in_paths: F,
) -> (r: Result<(), String>)
    where
        G: FnOnce() -> Option<String>,
        F: FnOnce(&str, &str, &str, &str, bool) -> Result<(), String>,
    requires
        call_requires(find_game_path, ()),
        forall|a: &str, b: &str, c: &str, d: &str, e: bool|
            call_requires(resolve_conflict_in_paths, (a, b, c, d, e)),
    ensures
        resolve_outcome(
            find_game_path,
            resolve_conflict_in_paths,
            new_mod_name,
            old_mod_folder_name,
            temp_mod_path_str@,
            replace,
            r,
        ),
{
    resolve_conflict_with(
        find_game_path,
        new_mod_name,
        old_mod_folder_name,
        temp_mod_path_str,
        replace,
        resolve_conflict_in_paths,
    )
}

/// Returns what the staging folder provider gives.
pub fn get_staging_dir_command_with<F>(get_staging_dir: F) -> (r: Result<String, String>)
    where
        F: FnOnce() -> Result<String, String>,
    requires
        call_requires(get_staging_dir, ()),
    ensures
        call_ensures(get_staging_dir, (), r),
{
    get_staging_dir_with_provider(get_staging_dir)
}

/// Returns what the mod list provider gives.
pub fn get_all_mods_for_render_command_with<F>(get_mods: F) -> (r: Result<Vec<ModRenderData>, String>)
    where
        F: FnOnce() -> Result<Vec<ModRenderData>, String>,
    requires
        call_requires(get_mods, ()),
    ensures
        call_ensures(get_mods, (), r),
{
    get_all_mods_for_render_with_provider(get_mods)
}

/// Hands the runtime and the choices to the finalizer and returns its result.
pub fn finalize_installation_command_with<R, F>(
    runtime: &R,
    library_id: String,
    selected_folders: Vec<String>,
    flatten_paths: bool,
    finalize: F,
) -> (r: Result<InstallationAnalysis, String>)
    where
        F: FnOnce(&R, String, Vec<String>, bool) -> Result<InstallationAnalysis, String>,
    requires
        call_requires(finalize, (runtime, library_id, selected_folders, flatten_paths)),
    ensures
        call_ensures(finalize, (runtime, library_id, selected_folders, flatten_paths), r),
{
    finalize_installation_with_provider(runtime, library_id, selected_folders, flatten_paths, finalize)
}

/// Resolves a conflict: what `resolve_conflict_with` does.
pub fn resolve_conflict_command_with<G, F>(
    new_mod_name: &str,
    old_mod_folder_name: &str,
    temp_mod_path_str: &str,
    replace: bool,
    find_game_path: G,
    resolve_conflict_in_paths: F,
) -> (r: Result<(), String>)
    where
        G: FnOnce() -> Option<String>,
        F: FnOnce(&str, &str, &str, &str, bool) -> Result<(), String>,
    requires
        call_requires(find_game_path, ()),
        forall|a: &str, b: &str, c: &str, d: &str, e: bool|
            call_requires(resolve_conflict_in_paths, (a, b, c, d, e)),
    ensures
        resolve_outcome(
            find_game_path,
            resolve_conflict_in_paths,
            new_mod_name,
            old_mod_folder_name,
            temp_mod_path_str@,
            replace,
            r,
        ),
{
    resolve_conflict_with_provider(
        new_mod_name,
        old_mod_folder_name,
        temp_mod_path_str,
        replace,
        find_game_path,
        resolve_conflict_in_paths,
    )
}

/// Hands the runtime and the choices to the finalizer and returns its result.
pub fn finalize_installation_with_provider<R, F>(
    runtime: &R,
    library_id: String,
    selected_folders: Vec<String>,
    flatten_paths: bool,
    finalize: F,
) -> (r: Result<InstallationAnalysis, String>)
    where
        F: FnOnce(&R, String, Vec<String>, bool) -> Result<InstallationAnalysis, String>,
    requires
        call_requires(finalize, (runtime, library_id, selected_folders, flatten_paths)),
    ensures
        call_ensures(finalize, (runtime, library_id, selected_folders, flatten_paths), r),
{
    finalize(runtime, library_id, selected_folders, flatten_paths)
}

/// Returns what the install provider gives for the archive and download id.
pub fn install_mod_from_archive_with_provider<F>(
    archive_path_str: String,
    download_id: String,
    install: F,
) -> (r: Result<InstallationAnalysis, String>)
    where
        F: FnOnce(String, String) -> Result<InstallationAnalysis, String>,
    requires
        call_requires(install, (archive_path_str, download_id)),
    ensures
        call_ensures(install, (archive_path_str, download_id), r),
{
    install(archive_path_str, download_id)
}

/// Installs from an archive, reporting progress events of `download_id`:
/// what `install_mod_from_archive_with_progress_events` does.
pub fn install_mod_from_archive_command_with<D, B, Ev, C, X, S, F>(
    archive_path_str: String,
    download_id: String,
    get_downloads_dir: D,
    get_library_dir: B,
    emit_event: Ev,
    copy_archive_to_downloads: C,
    extract_archive_if_needed: X,
    scan_library_mod_path: S,
    finalize_installation: F,
) -> (r: Result<InstallationAnalysis, String>)
    where
        D: FnOnce() -> Result<String, String>,
        B: FnOnce() -> Result<String, String>,
        Ev: Fn(InstallProgressPayload),
        C: FnOnce(&str, &str) -> Result<String, String>,
        X: FnOnce(&str, &str) -> Result<(), String>,
        S: FnOnce(&str) -> Result<(Vec<String>, Vec<String>), String>,
        F: FnOnce(String, Vec<String>, bool) -> Result<InstallationAnalysis, String>,
    requires
        call_requires(get_downloads_dir, ()),
        call_requires(get_library_dir, ()),
        forall|p: InstallProgressPayload| call_requires(emit_event, (p,)),
        forall|a: &str, b: &str| call_requires(copy_archive_to_downloads, (a, b)),
        forall|a: &str, b: &str| call_requires(extract_archive_if_needed, (a, b)),
        forall|a: &str| call_requires(scan_library_mod_path, (a,)),
        forall|a: String, b: Vec<String>, c: bool| call_requires(finalize_installation, (a, b, c)),
    ensures
        archive_install_outcome(
            archive_path_str@,
            |step: Seq<char>| step_event_emitted(&emit_event, download_id@, step),
            get_downloads_dir,
            get_library_dir,
            copy_archive_to_downloads,
            extract_archive_if_needed,
            scan_library_mod_path,
            finalize_installation,
            r,
        ),
{
    install_mod_from_archive_with_progress_events(
        archive_path_str,
        download_id,
        get_downloads_dir,
        get_library_dir,
        emit_event,
        copy_archive_to_downloads,
        extract_archive_if_needed,
        scan_library_mod_path,
        finalize_installation,
    )
}

} // verus!
