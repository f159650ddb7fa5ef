//! The entry points of the mod commands: each forwards to the command of
//! `commands` with the steps the app hands in, and the settings commands run
//! their flow directly.
use vstd::prelude::*;
use crate::command_flow::{
    download_mod_archive_flow, download_outcome, ensure_info_outcome, ensure_mod_info_flow, lemma_persisted_via_weaken,
    lemma_rename_outcome_weaken, logged, persisted_via, rename_in_settings_outcome,
    rename_outcome, reorder_outcome, synced_via, update_id_outcome, update_mod_id_in_json_flow,
    update_mod_name_in_xml_flow, delete_outcome,
};
use crate::command_ops::{mod_folder_path, validate_rename_paths, LibraryRenameSync};
use crate::commands::{
    download_mod_archive_command_with, download_mod_archive_with, download_request_message,
    delete_mod_command_with, delete_mod_with_deps, delete_request_message,
    ensure_mod_info_command_with, ensure_mod_info_with, rename_mod_folder_command_with,
    rename_mod_folder_with_deps, rename_request_message, reorder_mods_command_with,
    reorder_mods_with, update_mod_id_in_json_command_with, update_mod_id_in_json_with,
    update_mod_name_in_xml_command_with, update_mod_name_in_xml_with,
};
use crate::models::{opt_view, DownloadResult, EnsureModInfoInput, ModInfo, ModRenderData};

verus! {

/// The rename command: logs the request, then runs the flow.
pub fn rename_mod_folder_runtime_with<L, F>(
    old_name: String,
    new_name: String,
    log: L,
    run_flow: F,
) -> (r: Result<Vec<ModRenderData>, String>)
    where
        L: FnMut(&str, &str),
        F: FnOnce(String, String) -> Result<Vec<ModRenderData>, String>,
    requires
        forall|a: &str, b: &str| call_requires(log, (a, b)),
        call_requires(run_flow, (old_name, new_name)),
    ensures
        logged(log, "INFO"@, rename_request_message(old_name@, new_name@)),
        call_ensures(run_flow, (old_name, new_name), r),
{
    rename_mod_folder_command_with(old_name, new_name, log, run_flow)
}

/// The delete command: logs the request, then runs the flow.
pub fn delete_mod_runtime_with<L, F>(mod_name: String, log: L, run_flow: F) -> (r: Result<
    Vec<ModRenderData>,
    String,
>)
    where
        L: FnMut(&str, &str),
        F: FnOnce(String) -> Result<Vec<ModRenderData>, String>,
    requires
        forall|a: &str, b: &str| call_requires(log, (a, b)),
        call_requires(run_flow, (mod_name,)),
    ensures
        logged(log, "INFO"@, delete_request_message(mod_name@)),
        call_ensures(run_flow, (mod_name,), r),
{
    delete_mod_command_with(mod_name, log, run_flow)
}

/// The reorder command: runs the flow on the names.
pub fn reorder_mods_runtime_with<F>(ordered_mod_names: Vec<String>, run_flow: F) -> (r: Result<
    String,
    String,
>)
    where
        F: FnOnce(Vec<String>) -> Result<String, String>,
    requires
        call_requires(run_flow, (ordered_mod_names,)),
    ensures
        call_ensures(run_flow, (ordered_mod_names,), r),
{
    reorder_mods_command_with(ordered_mod_names, run_flow)
}

/// The settings rename command: runs the flow on both names.
pub fn update_mod_name_in_xml_runtime_with<F>(old_name: String, new_name: String, run_flow: F) -> (r:
    Result<String, String>)
    where
        F: FnOnce(String, String) -> Result<String, String>,
    requires
        call_requires(run_flow, (old_name, new_name)),
    ensures
        call_ensures(run_flow, (old_name, new_name), r),
{
    update_mod_name_in_xml_command_with(old_name, new_name, run_flow)
}

/// The id update command: runs the flow on the folder and id.
pub fn update_mod_id_in_json_runtime_with<F>(
    mod_folder_name: String,
    new_mod_id: String,
    run_flow: F,
) -> (r: Result<(), String>)
    where
        F: FnOnce(String, String) -> Result<(), String>,
    requires
        call_requires(run_flow, (mod_folder_name, new_mod_id)),
    ensures
        call_ensures(run_flow, (mod_folder_name, new_mod_id), r),
{
    update_mod_id_in_json_command_with(mod_folder_name, new_mod_id, run_flow)
}

/// The mod info command: runs the flow on the folder and the four fields.
pub fn ensure_mod_info_runtime_with<F>(
    mod_folder_name: String,
    mod_id: String,
    file_id: String,
    version: String,
    install_source: String,
    run_flow: F,
) -> (r: Result<(), String>)
    where
        F: FnOnce(String, String, String, String, String) -> Result<(), String>,
    requires
        call_requires(run_flow, (mod_folder_name, mod_id, file_id, version, install_source)),
    ensures
        call_ensures(run_flow, (mod_folder_name, mod_id, file_id, version, install_source), r),
{
    run_flow(mod_folder_name, mod_id, file_id, version, install_source)
}

/// The rename flow with all its steps: what `rename_mod_folder_with_deps`
/// does.
pub fn rename_mod_folder_app_flow_with<G, M, E, V, I, B, Y, R, S, U, W, Q, L>(
    old_name: String,
    new_name: String,
    find_game_path: G,
    mod_folder_path: M,
    path_exists: E,
    validate_rename_paths: V,
    read_mod_info: I,
    get_library_dir: B,
    sync_library_folder_rename: Y,
    rename_dir: R,
    settings_file_from_game_path: S,
    update_mod_name_in_xml: U,
    save_file: W,
    get_all_mods_for_render: Q,
    log: L,
) -> (r: Result<Vec<ModRenderData>, String>)
    where
        G: Fn() -> Option<String>,
        M: Fn(&str, &str) -> String,
        E: Fn(&str) -> bool,
        V: Fn(bool, bool) -> Result<(), String>,
        I: Fn(&str) -> Option<ModInfo>,
        B: Fn() -> Result<String, String>,
        Y: Fn(&str, &str, &str, &str) -> Result<LibraryRenameSync, String>,
        R: Fn(&str, &str) -> Result<(), String>,
        S: Fn(&str) -> String,
        U: Fn(String, String) -> Result<String, String>,
        W: Fn(String, String) -> Result<(), String>,
        Q: Fn() -> Result<Vec<ModRenderData>, String>,
        L: Fn(&str, &str),
    requires
        call_requires(find_game_path, ()),
        forall|a: &str, b: &str| call_requires(mod_folder_path, (a, b)),
        forall|a: &str| call_requires(path_exists, (a,)),
        forall|a: bool, b: bool| call_requires(validate_rename_paths, (a, b)),
        forall|a: &str| call_requires(read_mod_info, (a,)),
        call_requires(get_library_dir, ()),
        forall|a: &str, b: &str, c: &str, d: &str| call_requires(sync_library_folder_rename, (a, b, c, d)),
        forall|a: &str, b: &str| call_requires(rename_dir, (a, b)),
        forall|a: &str| call_requires(settings_file_from_game_path, (a,)),
        forall|a: String, b: String| call_requires(update_mod_name_in_xml, (a, b)),
        forall|a: String, b: String| call_requires(save_file, (a, b)),
        call_requires(get_all_mods_for_render, ()),
        forall|a: &str, b: &str| call_requires(log, (a, b)),
    ensures
        rename_outcome(
            old_name,
            new_name,
            find_game_path,
            mod_folder_path,
            path_exists,
            validate_rename_paths,
            |p: Seq<char>, o: Seq<char>, n: Seq<char>|
                synced_via(read_mod_info, get_library_dir, sync_library_folder_rename, log, p, o, n),
            rename_dir,
            settings_file_from_game_path,
            |sf: Seq<char>, o: String, n: String|
                persisted_via(
                    path_exists,
                    |a: String, b: String, out: Result<String, String>|
                        call_ensures(update_mod_name_in_xml, (a, b), out),
                    save_file,
                    log,
                    sf,
                    o,
                    n,
                ),
            get_all_mods_for_render,
            r,
        ),
{
    rename_mod_folder_with_deps(
        old_name,
        new_name,
        find_game_path,
        mod_folder_path,
        path_exists,
        validate_rename_paths,
        read_mod_info,
        get_library_dir,
        sync_library_folder_rename,
        rename_dir,
        settings_file_from_game_path,
        update_mod_name_in_xml,
        save_file,
        get_all_mods_for_render,
        log,
    )
}

/// The delete flow with all its steps: what `delete_mod_with_deps` does.
pub fn delete_mod_app_flow_with<G, S, M, X, D, Q, L>(
    mod_name: String,
    find_game_path: G,
    settings_file_from_game_path: S,
    mod_folder_path: M,
    maybe_remove_mod_folder: X,
    delete_mod_and_save_settings: D,
    get_all_mods_for_render: Q,
    log: L,
) -> (r: Result<Vec<ModRenderData>, String>)
    where
        G: Fn() -> Option<String>,
        S: Fn(&str) -> String,
        M: Fn(&str, &str) -> String,
        X: Fn(&str, &str) -> Result<bool, String>,
        D: Fn(&str, &str) -> Result<(), String>,
        Q: Fn() -> Result<Vec<ModRenderData>, String>,
        L: Fn(&str, &str),
    requires
        call_requires(find_game_path, ()),
        forall|a: &str| call_requires(settings_file_from_game_path, (a,)),
        forall|a: &str, b: &str| call_requires(mod_folder_path, (a, b)),
        forall|a: &str, b: &str| call_requires(maybe_remove_mod_folder, (a, b)),
        forall|a: &str, b: &str| call_requires(delete_mod_and_save_settings, (a, b)),
        forall|a: &str, b: &str| call_requires(log, (a, b)),
        call_requires(get_all_mods_for_render, ()),
    ensures
        delete_outcome(
            find_game_path,
            settings_file_from_game_path,
            mod_folder_path,
            maybe_remove_mod_folder,
            delete_mod_and_save_settings,
            log,
            get_all_mods_for_render,
            mod_name@,
            r,
        ),
{
    delete_mod_with_deps(
        mod_name,
        find_game_path,
        settings_file_from_game_path,
        mod_folder_path,
        maybe_remove_mod_folder,
        delete_mod_and_save_settings,
        get_all_mods_for_render,
        log,
    )
}

/// The rename command entry: the rename flow over the mod folders of the
/// game (`mod_folder_path`), checked by `validate_rename_paths`, whose
/// settings update is the settings rename command over the same game path,
/// settings file and `rename_mod_in_settings`.
pub fn rename_mod_folder_command_entry_with<G, S, F, B, W, Q, L, R, E, I, Y>(
    old_name: String,
    new_name: String,
    find_game_path: G,
    settings_file_from_game_path: S,
    rename_mod_in_settings: F,
    get_library_dir: B,
    save_file: W,
    get_all_mods_for_render: Q,
    log: L,
    rename_dir: R,
    path_exists: E,
    read_mod_info: I,
    sync_library_folder_rename: Y,
) -> (r: Result<Vec<ModRenderData>, String>)
    where
        G: Fn() -> Option<String>,
        S: Fn(&str) -> String,
        F: Fn(&str, &str, &str) -> Result<String, String>,
        B: Fn() -> Result<String, String>,
        W: Fn(String, String) -> Result<(), String>,
        Q: Fn() -> Result<Vec<ModRenderData>, String>,
        L: Fn(&str, &str),
        R: Fn(&str, &str) -> Result<(), String>,
        E: Fn(&str) -> bool,
        I: Fn(&str) -> Option<ModInfo>,
        Y: Fn(&str, &str, &str, &str) -> Result<LibraryRenameSync, String>,
    requires
        call_requires(find_game_path, ()),
        forall|a: &str| call_requires(settings_file_from_game_path, (a,)),
        forall|a: &str, b: &str, c: &str| call_requires(rename_mod_in_settings, (a, b, c)),
        call_requires(get_library_dir, ()),
        forall|a: String, b: String| call_requires(save_file, (a, b)),
        call_requires(get_all_mods_for_render, ()),
        forall|a: &str, b: &str| call_requires(log, (a, b)),
        forall|a: &str, b: &str| call_requires(rename_dir, (a, b)),
        forall|a: &str| call_requires(path_exists, (a,)),
        forall|a: &str| call_requires(read_mod_info, (a,)),
        forall|a: &str, b: &str, c: &str, d: &str| call_requires(sync_library_folder_rename, (a, b, c, d)),
    ensures
        rename_outcome(
            old_name,
            new_name,
            &find_game_path,
            mod_folder_path,
            &path_exists,
            validate_rename_paths,
            |p: Seq<char>, o: Seq<char>, n: Seq<char>|
                synced_via(read_mod_info, get_library_dir, sync_library_folder_rename, log, p, o, n),
            rename_dir,
            &settings_file_from_game_path,
            |sf: Seq<char>, o: String, n: String|
                persisted_via(
                    &path_exists,
                    |a: String, b: String, out: Result<String, String>|
                        rename_in_settings_outcome(
                            find_game_path,
                            settings_file_from_game_path,
                            rename_mod_in_settings,
                            a@,
                            b@,
                            out,
                        ),
                    save_file,
                    log,
                    sf,
                    o,
                    n,
                ),
            get_all_mods_for_render,
            r,
        ),
{
    let ghost on = old_name;
    let ghost nn = new_name;
    let update = |a: String, b: String| -> (out: Result<String, String>)
        ensures
            rename_in_settings_outcome(
                &find_game_path,
                &settings_file_from_game_path,
                &rename_mod_in_settings,
                a@,
                b@,
                out,
            ),
        {
            update_mod_name_in_xml_command_entry_with(
                a,
                b,
                &find_game_path,
                &settings_file_from_game_path,
                &rename_mod_in_settings,
            )
        };
    let r = rename_mod_folder_app_flow_with(
        old_name,
        new_name,
        &find_game_path,
        mod_folder_path,
        &path_exists,
        validate_rename_paths,
        read_mod_info,
        get_library_dir,
        sync_library_folder_rename,
        rename_dir,
        &settings_file_from_game_path,
        update,
        save_file,
        get_all_mods_for_render,
        log,
    );
    proof {
        let synced = |p: Seq<char>, o: Seq<char>, n: Seq<char>|
            synced_via(read_mod_info, get_library_dir, sync_library_folder_rename, log, p, o, n);
        let updated = |a: String, b: String, out: Result<String, String>|
            call_ensures(update, (a, b), out);
        let persisted1 = |sf: Seq<char>, o: String, n: String|
            persisted_via(
                &path_exists,
                |a: String, b: String, out: Result<String, String>| call_ensures(update, (a, b), out),
                save_file,
                log,
                sf,
                o,
                n,
            );
        let updated2 = |a: String, b: String, out: Result<String, String>|
            rename_in_settings_outcome(
                find_game_path,
                settings_file_from_game_path,
                rename_mod_in_settings,
                a@,
                b@,
                out,
            );
        let persisted2 = |sf: Seq<char>, o: String, n: String|
            persisted_via(
                &path_exists,
                |a: String, b: String, out: Result<String, String>|
                    rename_in_settings_outcome(
                        find_game_path,
                        settings_file_from_game_path,
                        rename_mod_in_settings,
                        a@,
                        b@,
                        out,
                    ),
                save_file,
                log,
                sf,
                o,
                n,
            );
        assert forall|a: String, b: String, out: Result<String, String>| #[trigger] updated(a, b, out) implies updated2(
            a,
            b,
            out,
        ) by {}
        assert forall|sf: Seq<char>, o: String, n: String| #[trigger] persisted1(sf, o, n) implies persisted2(
            sf,
            o,
            n,
        ) by {
            lemma_persisted_via_weaken(&path_exists, updated, updated2, save_file, log, sf, o, n);
        }
        lemma_rename_outcome_weaken(
            on,
            nn,
            &find_game_path,
            mod_folder_path,
            &path_exists,
            validate_rename_paths,
            synced,
            synced,
            rename_dir,
            &settings_file_from_game_path,
            persisted1,
            persisted2,
            get_all_mods_for_render,
            r,
        );
    }
    r
}

/// The delete command entry: what the delete flow does over these steps.
pub fn delete_mod_command_entry_with<G, S, M, X, D, Q, L>(
    mod_name: String,
    find_game_path: G,
    settings_file_from_game_path: S,
    mod_folder_path: M,
    maybe_remove_mod_folder: X,
    delete_mod_and_save_settings: D,
    get_all_mods_for_render: Q,
    log: L,
) -> (r: Result<Vec<ModRenderData>, String>)
    where
        G: Fn() -> Option<String>,
        S: Fn(&str) -> String,
        M: Fn(&str, &str) -> String,
        X: Fn(&str, &str) -> Result<bool, String>,
        D: Fn(&str, &str) -> Result<(), String>,
        Q: Fn() -> Result<Vec<ModRenderData>, String>,
        L: Fn(&str, &str),
    requires
        call_requires(find_game_path, ()),
        forall|a: &str| call_requires(settings_file_from_game_path, (a,)),
        forall|a: &str, b: &str| call_requires(mod_folder_path, (a, b)),
        forall|a: &str, b: &str| call_requires(maybe_remove_mod_folder, (a, b)),
        forall|a: &str, b: &str| call_requires(delete_mod_and_save_settings, (a, b)),
        forall|a: &str, b: &str| call_requires(log, (a, b)),
        call_requires(get_all_mods_for_render, ()),
    ensures
        delete_outcome(
            find_game_path,
            settings_file_from_game_path,
            mod_folder_path,
            maybe_remove_mod_folder,
            delete_mod_and_save_settings,
            log,
            get_all_mods_for_render,
            mod_name@,
            r,
        ),
{
    delete_mod_app_flow_with(
        mod_name,
        find_game_path,
        settings_file_from_game_path,
        mod_folder_path,
        maybe_remove_mod_folder,
        delete_mod_and_save_settings,
        get_all_mods_for_render,
        log,
    )
}

/// The reorder command entry: what the reorder flow does over these steps.
pub fn reorder_mods_command_entry_with<G, S, F>(
    ordered_mod_names: Vec<String>,
    find_game_path: G,
    settings_file_from_game_path: S,
    reorder_mods_from_settings: F,
) -> (r: Result<String, String>)
    where
        G: Fn() -> Option<String>,
        S: Fn(&str) -> String,
        F: Fn(&str, &[String]) -> Result<String, String>,
    requires
        call_requires(find_game_path, ()),
        forall|a: &str| call_requires(settings_file_from_game_path, (a,)),
        forall|a: &str, b: &[String]| call_requires(reorder_mods_from_settings, (a, b)),
    ensures
        reorder_outcome(
            find_game_path,
            settings_file_from_game_path,
            reorder_mods_from_settings,
            ordered_mod_names@,
            r,
        ),
{
    reorder_mods_with(
        ordered_mod_names.as_slice(),
        find_game_path,
        settings_file_from_game_path,
        reorder_mods_from_settings,
    )
}

/// The settings rename command entry: what the settings rename flow does
/// over these steps.
pub fn update_mod_name_in_xml_command_entry_with<G, S, F>(
    old_name: String,
    new_name: String,
    find_game_path: G,
    settings_file_from_game_path: S,
    rename_mod_in_settings: F,
) -> (r: Result<String, String>)
    where
        G: Fn() -> Option<String>,
        S: Fn(&str) -> String,
        F: Fn(&str, &str, &str) -> Result<String, String>,
    requires
        call_requires(find_game_path, ()),
        forall|a: &str| call_requires(settings_file_from_game_path, (a,)),
        forall|a: &str, b: &str, c: &str| call_requires(rename_mod_in_settings, (a, b, c)),
    ensures
        rename_in_settings_outcome(
            find_game_path,
            settings_file_from_game_path,
            rename_mod_in_settings,
            old_name@,
            new_name@,
            r,
        ),
{
    let run = |a: &str, b: &str| -> (out: Result<String, String>)
        ensures
            rename_in_settings_outcome(
                find_game_path,
                settings_file_from_game_path,
                rename_mod_in_settings,
                a@,
                b@,
                out,
            ),
        { update_mod_name_in_xml_flow(a, b, find_game_path, settings_file_from_game_path, rename_mod_in_settings) };
    update_mod_name_in_xml_with(old_name.as_str(), new_name.as_str(), run)
}

/// The id update command entry: what the id update flow does over these
/// steps.
pub fn update_mod_id_in_json_command_entry_with<G, F>(
    mod_folder_name: String,
    new_mod_id: String,
    find_game_path: G,
    update_mod_id_in_game_path: F,
) -> (r: Result<(), String>)
    where
        G: Fn() -> Option<String>,
        F: Fn(&str, &str, &str) -> Result<(), String>,
    requires
        call_requires(find_game_path, ()),
        forall|a: &str, b: &str, c: &str| call_requires(update_mod_id_in_game_path, (a, b, c)),
    ensures
        update_id_outcome(find_game_path, update_mod_id_in_game_path, mod_folder_name@, new_mod_id@, r),
{
    let run = |a: &str, b: &str| -> (out: Result<(), String>)
        ensures
            update_id_outcome(find_game_path, update_mod_id_in_game_path, a@, b@, out),
        { update_mod_id_in_json_flow(a, b, find_game_path, update_mod_id_in_game_path) };
    update_mod_id_in_json_with(mod_folder_name.as_str(), new_mod_id.as_str(), run)
}

/// The mod info command entry: what the mod info flow does for the folder
/// and the fields as they came.
pub fn ensure_mod_info_command_entry_with<G, F>(
    mod_folder_name: String,
    mod_id: String,
    file_id: String,
    version: String,
    install_source: String,
    find_game_path: G,
    ensure_mod_info_in_game_path: F,
) -> (r: Result<(), String>)
    where
        G: Fn() -> Option<String>,
        F: Fn(&str, &str, &EnsureModInfoInput) -> Result<(), String>,
    requires
        call_requires(find_game_path, ()),
        forall|a: &str, b: &str, c: &EnsureModInfoInput|
            call_requires(ensure_mod_info_in_game_path, (a, b, c)),
    ensures
        ensure_info_outcome(
            find_game_path,
            ensure_mod_info_in_game_path,
            mod_folder_name@,
            (EnsureModInfoInput { mod_id, file_id, version, install_source }),
            r,
        ),
{
    let run = |folder: String, input: EnsureModInfoInput| -> (out: Result<(), String>)
        ensures
            ensure_info_outcome(find_game_path, ensure_mod_info_in_game_path, folder@, input, out),
        {
            let inner = |f: &str, i: &EnsureModInfoInput| -> (o: Result<(), String>)
                ensures
                    ensure_info_outcome(find_game_path, ensure_mod_info_in_game_path, f@, *i, o),
                { ensure_mod_info_flow(f, i, find_game_path, ensure_mod_info_in_game_path) };
            ensure_mod_info_with(folder.as_str(), &input, inner)
        };
    ensure_mod_info_command_with(mod_folder_name, mod_id, file_id, version, install_source, run)
}

/// The download command: runs the flow on the request.
pub fn download_mod_archive_runtime_with<F>(
    download_url: String,
    file_name: String,
    download_id: Option<String>,
    run_flow: F,
) -> (r: Result<DownloadResult, String>)
    where
        F: FnOnce(String, String, Option<String>) -> Result<DownloadResult, String>,
    requires
        call_requires(run_flow, (file_name, download_url, download_id)),
    ensures
        call_ensures(run_flow, (file_name, download_url, download_id), r),
{
    download_mod_archive_command_with(file_name, download_url, download_id, run_flow)
}

/// The download command as the app calls it: logs the request, then runs
/// the download flow.
pub fn download_mod_archive_command_entry_with<L, F>(
    file_name: String,
    download_url: String,
    download_id: Option<String>,
    log: L,
    run_download_flow: F,
) -> (r: Result<DownloadResult, String>)
    where
        L: FnMut(&str, &str),
        F: FnOnce(String, String, Option<String>) -> Result<DownloadResult, String>,
    requires
        forall|a: &str, b: &str| call_requires(log, (a, b)),
        call_requires(run_download_flow, (file_name, download_url, download_id)),
    ensures
        logged(log, "INFO"@, download_request_message(file_name@)),
        call_ensures(run_download_flow, (file_name, download_url, download_id), r),
{
    download_mod_archive_with(file_name, download_url, download_id, log, run_download_flow)
}

/// The download flow over its steps: what `download_mod_archive_flow` does.
pub fn download_mod_archive_app_flow_with<D, F, L>(
    file_name: String,
    download_url: String,
    download_id: Option<String>,
    get_downloads_dir: D,
    download_archive_to_path: F,
    log: L,
) -> (r: Result<DownloadResult, String>)
    where
        D: FnOnce() -> Result<String, String>,
        F: FnOnce(String, String, Option<String>) -> Result<DownloadResult, String>,
        L: Fn(&str, &str),
    requires
        call_requires(get_downloads_dir, ()),
        forall|u: String, p: String, i: Option<String>| call_requires(download_archive_to_path, (u, p, i)),
        forall|a: &str, b: &str| call_requires(log, (a, b)),
    ensures
        download_outcome(
            file_name@,
            download_url@,
            opt_view(download_id),
            get_downloads_dir,
            download_archive_to_path,
            log,
            r,
        ),
{
    let id = match &download_id {
        Some(s) => Some(s.as_str()),
        None => None,
    };
    download_mod_archive_flow(
        file_name.as_str(),
        download_url.as_str(),
        id,
        get_downloads_dir,
        download_archive_to_path,
        log,
    )
}

} // verus!
