//! The mod commands as the app calls them: request log lines, the mod info
//! input record, and the flows wired to their steps.
use vstd::prelude::*;
use crate::command_flow::{
    delete_mod_flow, delete_outcome, lemma_rename_outcome_weaken, logged,
    maybe_persist_renamed_mod_settings, maybe_sync_library_rename_for_mod, persisted_via,
    ran_persist, ran_sync, rename_mod_folder_flow, rename_outcome, reorder_mods_flow,
    reorder_outcome, synced_via,
};
use crate::command_ops::LibraryRenameSync;
use crate::models::{DownloadResult, EnsureModInfoInput, ModInfo, ModRenderData};
use crate::text::{append_str, concat2, owned};

verus! {

pub open spec fn rename_request_message(old_name: Seq<char>, new_name: Seq<char>) -> Seq<char> {
    "Requesting rename: '"@ + old_name + "' -> '"@ + new_name + "'"@
}

pub open spec fn delete_request_message(mod_name: Seq<char>) -> Seq<char> {
    "Requesting deletion of mod: "@ + mod_name
}

pub open spec fn download_request_message(file_name: Seq<char>) -> Seq<char> {
    "Starting download request for: "@ + file_name
}

/// `Requesting rename: '<old>' -> '<new>'`.
pub fn rename_request_log_message(old_name: &str, new_name: &str) -> (r: String)
    ensures
        r@ == rename_request_message(old_name@, new_name@),
{
    let mut s = owned("Requesting rename: '");
    append_str(&mut s, old_name);
    append_str(&mut s, "' -> '");
    append_str(&mut s, new_name);
    append_str(&mut s, "'");
    s
}

/// `Requesting deletion of mod: <name>`.
pub fn delete_request_log_message(mod_name: &str) -> (r: String)
    ensures
        r@ == delete_request_message(mod_name@),
{
    concat2("Requesting deletion of mod: ", mod_name)
}

/// `Starting download request for: <file>`.
pub fn download_request_log_message(file_name: &str) -> (r: String)
    ensures
        r@ == download_request_message(file_name@),
{
    concat2("Starting download request for: ", file_name)
}

/// The mod info fields of a command, as they came.
pub fn build_ensure_mod_info_input(
    mod_id: String,
    file_id: String,
    version: String,
    install_source: String,
) -> (r: EnsureModInfoInput)
    ensures
        r == (EnsureModInfoInput { mod_id, file_id, version, install_source }),
{
    EnsureModInfoInput { mod_id, file_id, version, install_source }
}

/// The reorder command over its steps: what `reorder_mods_flow` does.
pub fn reorder_mods_with<G, S, F>(
    ordered_mod_names: &[String],
    find_game_path: G,
    settings_file_from_game_path: S,
    reorder_mods_from_settings: F,
) -> (r: Result<String, String>)
    where
        G: Fn() -> Option<String>,
        S: Fn(&str) -> String,
        F: Fn(&str, &[String]) -> Result<String, String>,
    requires
        call_requires(find_game_path, ()),
        forall|a: &str| call_requires(settings_file_from_game_path, (a,)),
        forall|a: &str, b: &[String]| call_requires(reorder_mods_from_settings, (a, b)),
    ensures
        reorder_outcome(
            find_game_path,
            settings_file_from_game_path,
            reorder_mods_from_settings,
            ordered_mod_names@,
            r,
        ),
{
    reorder_mods_flow(
        ordered_mod_names,
        find_game_path,
        settings_file_from_game_path,
        reorder_mods_from_settings,
    )
}

/// Hands the names to the reorder flow and returns its result.
pub fn reorder_mods_command_with<F>(ordered_mod_names: Vec<String>, run_flow: F) -> (r: Result<
    String,
    String,
>)
    where
        F: FnOnce(Vec<String>) -> Result<String, String>,
    requires
        call_requires(run_flow, (ordered_mod_names,)),
    ensures
        call_ensures(run_flow, (ordered_mod_names,), r),
{
    run_flow(ordered_mod_names)
}

/// Logs the rename request at `INFO`, then hands both names to the rename
/// flow and returns its result.
pub fn rename_mod_folder_command_with<L, F>(
    old_name: String,
    new_name: String,
    mut log: L,
    run_flow: F,
) -> (r: Result<Vec<ModRenderData>, String>)
    where
        L: FnMut(&str, &str),
        F: FnOnce(String, String) -> Result<Vec<ModRenderData>, String>,
    requires
        forall|a: &str, b: &str| call_requires(log, (a, b)),
        call_requires(run_flow, (old_name, new_name)),
    ensures
        logged(log, "INFO"@, rename_request_message(old_name@, new_name@)),
        call_ensures(run_flow, (old_name, new_name), r),
{
    let message = rename_request_log_message(old_name.as_str(), new_name.as_str());
    let level = "INFO";
    let m = message.as_str();
    log(level, m);
    assert(call_ensures(log, (level, m), ()));
    run_flow(old_name, new_name)
}

/// Logs the delete request at `INFO`, then hands the name to the delete flow
/// and returns its result.
pub fn delete_mod_command_with<L, F>(mod_name: String, mut log: L, run_flow: F) -> (r: Result<
    Vec<ModRenderData>,
    String,
>)
    where
        L: FnMut(&str, &str),
        F: FnOnce(String) -> Result<Vec<ModRenderData>, String>,
    requires
        forall|a: &str, b: &str| call_requires(log, (a, b)),
        call_requires(run_flow, (mod_name,)),
    ensures
        logged(log, "INFO"@, delete_request_message(mod_name@)),
        call_ensures(run_flow, (mod_name,), r),
{
    let message = delete_request_log_message(mod_name.as_str());
    let level = "INFO";
    let m = message.as_str();
    log(level, m);
    assert(call_ensures(log, (level, m), ()));
    run_flow(mod_name)
}

/// The rename command over its steps: `rename_mod_folder_flow`, whose sync
/// step is `maybe_sync_library_rename_for_mod` and whose persist step is
/// `maybe_persist_renamed_mod_settings`.
pub fn rename_mod_folder_with_deps<G, M, E, V, I, B, Y, R, S, U, W, Q, L>(
    old_name: String,
    new_name: String,
    find_game_path: G,
    mod_folder_path: M,
    path_exists: E,
    validate_rename_paths: V,
    read_mod_info: I,
    get_library_dir: B,
    sync_library_folder_rename: Y,
    rename_dir: R,
    settings_file_from_game_path: S,
    update_mod_name_in_xml: U,
    save_file: W,
    get_all_mods_for_render: Q,
    log: L,
) -> (r: Result<Vec<ModRenderData>, String>)
    where
        G: Fn() -> Option<String>,
        M: Fn(&str, &str) -> String,
        E: Fn(&str) -> bool,
        V: Fn(bool, bool) -> Result<(), String>,
        I: Fn(&str) -> Option<ModInfo>,
        B: Fn() -> Result<String, String>,
        Y: Fn(&str, &str, &str, &str) -> Result<LibraryRenameSync, String>,
        R: Fn(&str, &str) -> Result<(), String>,
        S: Fn(&str) -> String,
        U: Fn(String, String) -> Result<String, String>,
        W: Fn(String, String) -> Result<(), String>,
        Q: Fn() -> Result<Vec<ModRenderData>, String>,
        L: Fn(&str, &str),
    requires
        call_requires(find_game_path, ()),
        forall|a: &str, b: &str| call_requires(mod_folder_path, (a, b)),
        forall|a: &str| call_requires(path_exists, (a,)),
        forall|a: bool, b: bool| call_requires(validate_rename_paths, (a, b)),
        forall|a: &str| call_requires(read_mod_info, (a,)),
        call_requires(get_library_dir, ()),
        forall|a: &str, b: &str, c: &str, d: &str| call_requires(sync_library_folder_rename, (a, b, c, d)),
        forall|a: &str, b: &str| call_requires(rename_dir, (a, b)),
        forall|a: &str| call_requires(settings_file_from_game_path, (a,)),
        forall|a: String, b: String| call_requires(update_mod_name_in_xml, (a, b)),
        forall|a: String, b: String| call_requires(save_file, (a, b)),
        call_requires(get_all_mods_for_render, ()),
        forall|a: &str, b: &str| call_requires(log, (a, b)),
    ensures
        rename_outcome(
            old_name,
            new_name,
            find_game_path,
            mod_folder_path,
            path_exists,
            validate_rename_paths,
            |p: Seq<char>, o: Seq<char>, n: Seq<char>|
                synced_via(read_mod_info, get_library_dir, sync_library_folder_rename, log, p, o, n),
            rename_dir,
            settings_file_from_game_path,
            |sf: Seq<char>, o: String, n: String|
                persisted_via(
                    path_exists,
                    |a: String, b: String, out: Result<String, String>|
                        call_ensures(update_mod_name_in_xml, (a, b), out),
                    save_file,
                    log,
                    sf,
                    o,
                    n,
                ),
            get_all_mods_for_render,
            r,
        ),
{
    let ghost on = old_name;
    let ghost nn = new_name;
    let sync_step = |p: &str, o: &str, n: &str|
        ensures
            synced_via(&read_mod_info, &get_library_dir, &sync_library_folder_rename, &log, p@, o@, n@),
        {
            maybe_sync_library_rename_for_mod(
                p,
                o,
                n,
                &read_mod_info,
                &get_library_dir,
                &sync_library_folder_rename,
                &log,
            )
        };
    let persist_step = |sf: &str, o: String, n: String|
        ensures
            persisted_via(
                &path_exists,
                |a: String, b: String, out: Result<String, String>|
                    call_ensures(&update_mod_name_in_xml, (a, b), out),
                &save_file,
                &log,
                sf@,
                o,
                n,
            ),
        {
            maybe_persist_renamed_mod_settings(
                sf,
                o,
                n,
                &path_exists,
                &update_mod_name_in_xml,
                &save_file,
                &log,
            )
        };
    let r = rename_mod_folder_flow(
        old_name,
        new_name,
        find_game_path,
        mod_folder_path,
        &path_exists,
        validate_rename_paths,
        sync_step,
        rename_dir,
        settings_file_from_game_path,
        persist_step,
        get_all_mods_for_render,
    );
    proof {
        let synced2 = |p: Seq<char>, o: Seq<char>, n: Seq<char>|
            synced_via(read_mod_info, get_library_dir, sync_library_folder_rename, log, p, o, n);
        let persisted2 = |sf: Seq<char>, o: String, n: String|
            persisted_via(
                path_exists,
                |a: String, b: String, out: Result<String, String>|
                    call_ensures(update_mod_name_in_xml, (a, b), out),
                save_file,
                log,
                sf,
                o,
                n,
            );
        let synced = |p: Seq<char>, o: Seq<char>, n: Seq<char>| ran_sync(sync_step, p, o, n);
        let persisted = |sf: Seq<char>, o: String, n: String| ran_persist(persist_step, sf, o, n);
        assert forall|a: Seq<char>, b: Seq<char>, c: Seq<char>| #[trigger] synced(a, b, c) implies synced2(
            a,
            b,
            c,
        ) by {
            let (x, y, z) = choose|x: &str, y: &str, z: &str|
                #![trigger call_ensures(sync_step, (x, y, z), ())]
                x@ == a && y@ == b && z@ == c && call_ensures(sync_step, (x, y, z), ());
        }
        assert forall|a: Seq<char>, b: String, c: String| #[trigger] persisted(a, b, c) implies persisted2(
            a,
            b,
            c,
        ) by {
            let x = choose|x: &str|
                #![trigger call_ensures(persist_step, (x, b, c), ())]
                x@ == a && call_ensures(persist_step, (x, b, c), ());
        }
        lemma_rename_outcome_weaken(
            on,
            nn,
            find_game_path,
            mod_folder_path,
            path_exists,
            validate_rename_paths,
            synced,
            synced2,
            rename_dir,
            settings_file_from_game_path,
            persisted,
            persisted2,
            get_all_mods_for_render,
            r,
        );
    }
    r
}

/// The delete command over its steps: what `delete_mod_flow` does.
pub fn delete_mod_with_deps<G, S, M, X, D, Q, L>(
    mod_name: String,
    find_game_path: G,
    settings_file_from_game_path: S,
    mod_folder_path: M,
    maybe_remove_mod_folder: X,
    delete_mod_and_save_settings: D,
    get_all_mods_for_render: Q,
    log: L,
) -> (r: Result<Vec<ModRenderData>, String>)
    where
        G: Fn() -> Option<String>,
        S: Fn(&str) -> String,
        M: Fn(&str, &str) -> String,
        X: Fn(&str, &str) -> Result<bool, String>,
        D: Fn(&str, &str) -> Result<(), String>,
        Q: Fn() -> Result<Vec<ModRenderData>, String>,
        L: Fn(&str, &str),
    requires
        call_requires(find_game_path, ()),
        forall|a: &str| call_requires(settings_file_from_game_path, (a,)),
        forall|a: &str, b: &str| call_requires(mod_folder_path, (a, b)),
        forall|a: &str, b: &str| call_requires(maybe_remove_mod_folder, (a, b)),
        forall|a: &str, b: &str| call_requires(delete_mod_and_save_settings, (a, b)),
        forall|a: &str, b: &str| call_requires(log, (a, b)),
        call_requires(get_all_mods_for_render, ()),
    ensures
        delete_outcome(
            find_game_path,
            settings_file_from_game_path,
            mod_folder_path,
            maybe_remove_mod_folder,
            delete_mod_and_save_settings,
            log,
            get_all_mods_for_render,
            mod_name@,
            r,
        ),
{
    delete_mod_flow(
        mod_name,
        find_game_path,
        settings_file_from_game_path,
        mod_folder_path,
        maybe_remove_mod_folder,
        delete_mod_and_save_settings,
        log,
        get_all_mods_for_render,
    )
}

/// Hands both names to the settings rename flow and returns its result.
pub fn update_mod_name_in_xml_with<F>(old_name: &str, new_name: &str, run_flow: F) -> (r: Result<
    String,
    String,
>)
    where
        F: FnOnce(&str, &str) -> Result<String, String>,
    requires
        call_requires(run_flow, (old_name, new_name)),
    ensures
        call_ensures(run_flow, (old_name, new_name), r),
{
    run_flow(old_name, new_name)
}

/// Hands both names to the settings rename flow and returns its result.
pub fn update_mod_name_in_xml_command_with<F>(old_name: String, new_name: String, run_flow: F) -> (r:
    Result<String, String>)
    where
        F: FnOnce(String, String) -> Result<String, String>,
    requires
        call_requires(run_flow, (old_name, new_name)),
    ensures
        call_ensures(run_flow, (old_name, new_name), r),
{
    run_flow(old_name, new_name)
}

/// Hands the folder and id to the id update flow and returns its result.
pub fn update_mod_id_in_json_with<F>(mod_folder_name: &str, new_mod_id: &str, run_flow: F) -> (r:
    Result<(), String>)
    where
        F: FnOnce(&str, &str) -> Result<(), String>,
    requires
        call_requires(run_flow, (mod_folder_name, new_mod_id)),
    ensures
        call_ensures(run_flow, (mod_folder_name, new_mod_id), r),
{
    run_flow(mod_folder_name, new_mod_id)
}

/// Hands the folder and id to the id update flow and returns its result.
pub fn update_mod_id_in_json_command_with<F>(
    mod_folder_name: String,
    new_mod_id: String,
    run_flow: F,
) -> (r: Result<(), String>)
    where
        F: FnOnce(String, String) -> Result<(), String>,
    requires
        call_requires(run_flow, (mod_folder_name, new_mod_id)),
    ensures
        call_ensures(run_flow, (mod_folder_name, new_mod_id), r),
{
    run_flow(mod_folder_name, new_mod_id)
}

/// Hands the folder and fields to the mod info flow and returns its result.
pub fn ensure_mod_info_with<F>(mod_folder_name: &str, input: &EnsureModInfoInput, run_flow: F) -> (r:
    Result<(), String>)
    where
        F: FnOnce(&str, &EnsureModInfoInput) -> Result<(), String>,
    requires
        call_requires(run_flow, (mod_folder_name, input)),
    ensures
        call_ensures(run_flow, (mod_folder_name, input), r),
{
    run_flow(mod_folder_name, input)
}

/// Builds the mod info fields and hands them, with the folder, to the mod
/// info flow; returns its result.
pub fn ensure_mod_info_command_with<F>(
    mod_folder_name: String,
    mod_id: String,
    file_id: String,
    version: String,
    install_source: String,
    run_flow: F,
) -> (r: Result<(), String>)
    where
        F: FnOnce(String, EnsureModInfoInput) -> Result<(), String>,
    requires
        call_requires(
            run_flow,
            (mod_folder_name, (EnsureModInfoInput { mod_id, file_id, version, install_source })),
        ),
    ensures
        call_ensures(
            run_flow,
            (mod_folder_name, (EnsureModInfoInput { mod_id, file_id, version, install_source })),
            r,
        ),
{
    let input = build_ensure_mod_info_input(mod_id, file_id, version, install_source);
    run_flow(mod_folder_name, input)
}

/// Hands the download request to the download flow and returns its result.
pub fn download_mod_archive_command_with<F>(
    file_name: String,
    download_url: String,
    download_id: Option<String>,
    run_flow: F,
) -> (r: Result<DownloadResult, String>)
    where
        F: FnOnce(String, String, Option<String>) -> Result<DownloadResult, String>,
    requires
        call_requires(run_flow, (file_name, download_url, download_id)),
    ensures
        call_ensures(run_flow, (file_name, download_url, download_id), r),
{
    run_flow(file_name, download_url, download_id)
}

/// Logs the download request at `INFO`, then hands it to the download flow
/// and returns its result.
pub fn download_mod_archive_with<L, F>(
    file_name: String,
    download_url: String,
    download_id: Option<String>,
    mut log: L,
    run_flow: F,
) -> (r: Result<DownloadResult, String>)
    where
        L: FnMut(&str, &str),
        F: FnOnce(String, String, Option<String>) -> Result<DownloadResult, String>,
    requires
        forall|a: &str, b: &str| call_requires(log, (a, b)),
        call_requires(run_flow, (file_name, download_url, download_id)),
    ensures
        logged(log, "INFO"@, download_request_message(file_name@)),
        call_ensures(run_flow, (file_name, download_url, download_id), r),
{
    let message = download_request_log_message(file_name.as_str());
    let level = "INFO";
    let m = message.as_str();
    log(level, m);
    assert(call_ensures(log, (level, m), ()));
    run_flow(file_name, download_url, download_id)
}

} // verus!
