//! The install command entries over a runtime value: each hands the runtime
//! to its step and returns what it gives.
use vstd::prelude::*;
use crate::install::{
    install_mod_from_archive_command_with, install_mod_from_archive_with_provider,
    finalize_installation_command_with, get_all_mods_for_render_command_with,
    get_staging_dir_command_with, resolve_conflict_command_with,
};
use crate::install_command_core::resolve_outcome;
use crate::install_command_flow::{archive_install_outcome, step_event_emitted};
use crate::models::{InstallProgressPayload, InstallationAnalysis, ModRenderData};

verus! {

/// Returns what `get_staging_dir` gives for the runtime.
pub fn get_staging_dir_runtime_with<R, F>(runtime: &R, get_staging_dir: F) -> (r: Result<String, String>)
    where
        F: FnOnce(&R) -> Result<String, String>,
    requires
        call_requires(get_staging_dir, (runtime,)),
    ensures
        call_ensures(get_staging_dir, (runtime,), r),
{
    let provider = || -> (o: Result<String, String>)
        requires
            call_requires(get_staging_dir, (runtime,)),
        ensures
            call_ensures(get_staging_dir, (runtime,), o),
        { get_staging_dir(runtime) };
    get_staging_dir_command_with(provider)
}

/// Returns what `get_staging_dir` gives for the runtime.
pub fn get_staging_dir_command_entry_with<R, F>(runtime: &R, get_staging_dir: F) -> (r: Result<String, String>)
    where
        F: FnOnce(&R) -> Result<String, String>,
    requires
        call_requires(get_staging_dir, (runtime,)),
    ensures
        call_ensures(get_staging_dir, (runtime,), r),
{
    get_staging_dir_runtime_with(runtime, get_staging_dir)
}

/// Returns what `get_mods` gives for the runtime.
pub fn get_all_mods_for_render_runtime_with<R, F>(runtime: &R, get_mods: F) -> (r: Result<
    Vec<ModRenderData>,
    String,
>)
    where
        F: FnOnce(&R) -> Result<Vec<ModRenderData>, String>,
    requires
        call_requires(get_mods, (runtime,)),
    ensures
        call_ensures(get_mods, (runtime,), r),
{
    let provider = || -> (o: Result<Vec<ModRenderData>, String>)
        requires
            call_requires(get_mods, (runtime,)),
        ensures
            call_ensures(get_mods, (runtime,), o),
        { get_mods(runtime) };
    get_all_mods_for_render_command_with(provider)
}

/// Returns what `get_mods` gives for the runtime.
pub fn get_all_mods_for_render_command_entry_with<R, F>(runtime: &R, get_mods: F) -> (r: Result<
    Vec<ModRenderData>,
    String,
>)
    where
        F: FnOnce(&R) -> Result<Vec<ModRenderData>, String>,
    requires
        call_requires(get_mods, (runtime,)),
    ensures
        call_ensures(get_mods, (runtime,), r),
{
    get_all_mods_for_render_runtime_with(runtime, get_mods)
}

/// Hands the runtime and the choices to the finalizer and returns its result.
pub fn finalize_installation_runtime_with<R, F>(
    runtime: &R,
    library_id: String,
    selected_folders: Vec<String>,
    flatten_paths: bool,
    finalize: F,
) -> (r: Result<InstallationAnalysis, String>)
    where
        F: FnOnce(&R, String, Vec<String>, bool) -> Result<InstallationAnalysis, String>,
    requires
        call_requires(finalize, (runtime, library_id, selected_folders, flatten_paths)),
    ensures
        call_ensures(finalize, (runtime, library_id, selected_folders, flatten_paths), r),
{
    finalize_installation_command_with(runtime, library_id, selected_folders, flatten_paths, finalize)
}

/// Hands the runtime and the choices to the finalizer and returns its result.
pub fn finalize_installation_command_entry_with<R, F>(
    runtime: &R,
    library_id: String,
    selected_folders: Vec<String>,
    flatten_paths: bool,
    finalize: F,
) -> (r: Result<InstallationAnalysis, String>)
    where
        F: FnOnce(&R, String, Vec<String>, bool) -> Result<InstallationAnalysis, String>,
    requires
        call_requires(finalize, (runtime, library_id, selected_folders, flatten_paths)),
    ensures
        call_ensures(finalize, (runtime, library_id, selected_folders, flatten_paths), r),
{
    finalize_installation_runtime_with(runtime, library_id, selected_folders, flatten_paths, finalize)
}

/// Resolves a conflict: what `resolve_conflict_with` does.
pub fn resolve_conflict_runtime_with<G, F>(
    new_mod_name: &str,
    old_mod_folder_name: &str,
    temp_mod_path_str: &str,
    replace: bool,
    find_game_path: G,
    resolve_conflict: F,
) -> (r: Result<(), String>)
    where
        G: FnOnce() -> Option<String>,
        F: FnOnce(&str, &str, &str, &str, bool) -> Result<(), String>,
    requires
        call_requires(find_game_path, ()),
        forall|a: &str, b: &str, c: &str, d: &str, e: bool| call_requires(resolve_conflict, (a, b, c, d, e)),
    ensures
        resolve_outcome(
            find_game_path,
            resolve_conflict,
            new_mod_name,
            old_mod_folder_name,
            temp_mod_path_str@,
            replace,
            r,
        ),
{
    resolve_conflict_command_with(
        new_mod_name,
        old_mod_folder_name,
        temp_mod_path_str,
        replace,
        find_game_path,
        resolve_conflict,
    )
}

/// Resolves a conflict: what `resolve_conflict_with` does.
pub fn resolve_conflict_command_entry_with<G, F>(
    new_mod_name: &str,
    old_mod_folder_name: &str,
    temp_mod_path_str: &str,
    replace: bool,
    find_game_path: G,
    resolve_conflict: F,
) -> (r: Result<(), String>)
    where
        G: FnOnce() -> Option<String>,
        F: FnOnce(&str, &str, &str, &str, bool) -> Result<(), String>,
    requires
        call_requires(find_game_path, ()),
        forall|a: &str, b: &str, c: &str, d: &str, e: bool| call_requires(resolve_conflict, (a, b, c, d, e)),
    ensures
        resolve_outcome(
            find_game_path,
            resolve_conflict,
            new_mod_name,
            old_mod_folder_name,
            temp_mod_path_str@,
            replace,
            r,
        ),
{
    resolve_conflict_runtime_with(
        new_mod_name,
        old_mod_folder_name,
        temp_mod_path_str,
        replace,
        find_game_path,
        resolve_conflict,
    )
}

/// The install command: hands the archive and download id to the install
/// that reports progress events.
pub fn install_mod_from_archive_runtime_with<D, B, Ev, C, X, S, F>(
    archive_path_str: String,
    download_id: String,
    get_downloads_dir: D,
    get_library_dir: B,
    emit_event: Ev,
    copy_archive_to_downloads: C,
    extract_archive_if_needed: X,
    scan_library_mod_path: S,
    finalize_installation: F,
) -> (r: Result<InstallationAnalysis, String>)
    where
        D: FnOnce() -> Result<String, String>,
        B: FnOnce() -> Result<String, String>,
        Ev: Fn(InstallProgressPayload),
        C: FnOnce(&str, &str) -> Result<String, String>,
        X: FnOnce(&str, &str) -> Result<(), String>,
        S: FnOnce(&str) -> Result<(Vec<String>, Vec<String>), String>,
        F: FnOnce(String, Vec<String>, bool) -> Result<InstallationAnalysis, String>,
    requires
        call_requires(get_downloads_dir, ()),
        call_requires(get_library_dir, ()),
        forall|p: InstallProgressPayload| call_requires(emit_event, (p,)),
        forall|a: &str, b: &str| call_requires(copy_archive_to_downloads, (a, b)),
        forall|a: &str, b: &str| call_requires(extract_archive_if_needed, (a, b)),
        forall|a: &str| call_requires(scan_library_mod_path, (a,)),
        forall|a: String, b: Vec<String>, c: bool| call_requires(finalize_installation, (a, b, c)),
    ensures
        archive_install_outcome(
            archive_path_str@,
            |step: Seq<char>| step_event_emitted(&emit_event, download_id@, step),
            get_downloads_dir,
            get_library_dir,
            copy_archive_to_downloads,
            extract_archive_if_needed,
            scan_library_mod_path,
            finalize_installation,
            r,
        ),
{
    let ghost path = archive_path_str@;
    let ghost id = download_id@;
    let install = |archive: String, download: String| -> (out: Result<InstallationAnalysis, String>)
        requires
            archive@ == path,
            download@ == id,
        ensures
            archive_install_outcome(
                path,
                |step: Seq<char>| step_event_emitted(&emit_event, id, step),
                get_downloads_dir,
                get_library_dir,
                copy_archive_to_downloads,
                extract_archive_if_needed,
                scan_library_mod_path,
                finalize_installation,
                out,
            ),
        {
            install_mod_from_archive_command_with(
                archive,
                download,
                get_downloads_dir,
                get_library_dir,
                emit_event,
                copy_archive_to_downloads,
                extract_archive_if_needed,
                scan_library_mod_path,
                finalize_installation,
            )
        };
    install_mod_from_archive_with_provider(archive_path_str, download_id, install)
}

/// The install command as the app calls it: what
/// `install_mod_from_archive_runtime_with` does.
pub fn install_mod_from_archive_command_entry_with<D, B, Ev, C, X, S, F>(
    archive_path_str: String,
    download_id: String,
    get_downloads_dir: D,
    get_library_dir: B,
    emit_event: Ev,
    copy_archive_to_downloads: C,
    extract_archive_if_needed: X,
    scan_library_mod_path: S,
    finalize_installation: F,
) -> (r: Result<InstallationAnalysis, String>)
    where
        D: FnOnce() -> Result<String, String>,
        B: FnOnce() -> Result<String, String>,
        Ev: Fn(InstallProgressPayload),
        C: FnOnce(&str, &str) -> Result<String, String>,
        X: FnOnce(&str, &str) -> Result<(), String>,
        S: FnOnce(&str) -> Result<(Vec<String>, Vec<String>), String>,
        F: FnOnce(String, Vec<String>, bool) -> Result<InstallationAnalysis, String>,
    requires
        call_requires(get_downloads_dir, ()),
        call_requires(get_library_dir, ()),
        forall|p: InstallProgressPayload| call_requires(emit_event, (p,)),
        forall|a: &str, b: &str| call_requires(copy_archive_to_downloads, (a, b)),
        forall|a: &str, b: &str| call_requires(extract_archive_if_needed, (a, b)),
        forall|a: &str| call_requires(scan_library_mod_path, (a,)),
        forall|a: String, b: Vec<String>, c: bool| call_requires(finalize_installation, (a, b, c)),
    ensures
        archive_install_outcome(
            archive_path_str@,
            |step: Seq<char>| step_event_emitted(&emit_event, download_id@, step),
            get_downloads_dir,
            get_library_dir,
            copy_archive_to_downloads,
            extract_archive_if_needed,
            scan_library_mod_path,
            finalize_installation,
            r,
        ),
{
    install_mod_from_archive_runtime_with(
        archive_path_str,
        download_id,
        get_downloads_dir,
        get_library_dir,
        emit_event,
        copy_archive_to_downloads,
        extract_archive_if_needed,
        scan_library_mod_path,
        finalize_installation,
    )
}

} // verus!
