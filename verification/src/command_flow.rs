//! The mod commands as flows over injected steps: each step that touches the
//! disk or the settings file is a function handed in by the caller, and the
//! flow decides what to call next from what the previous step gave.
use vstd::prelude::*;
use crate::command_ops::LibraryRenameSync;
use crate::models::{opt_view, DownloadResult, EnsureModInfoInput, ModInfo, ModRenderData};
use crate::paths::{join_path, path_join};
use crate::text::{concat2, owned};

verus! {

/// What `format!("{:?}", s)` gives for a string: the quoted, escaped text.
pub uninterp spec fn debug_text(s: Seq<char>) -> Seq<char>;

/// Calls `format!("{:?}", s)` (the `Debug` form of a `str`). Claims only that
/// the text is a function of `s`, named `debug_text`; the escaping rules are
/// not restated.
#[verifier::external_body]
pub(crate) fn debug_quoted(s: &str) -> (r: String)
    ensures
        r@ == debug_text(s@),
{
    format!("{:?}", s)
}

/// What `format!("{:?}", Path::new(p))` gives for a path written as the
/// text `p`: the quoted, escaped text of a `Path`, whose escaping differs from
/// that of a `str` (a single quote is escaped too).
pub uninterp spec fn path_debug_text(p: Seq<char>) -> Seq<char>;

/// Calls `format!("{:?}", std::path::Path::new(p))` (the `Debug` form of a
/// `Path`). Claims only that the text is a function of `p`, named
/// `path_debug_text`; the escaping rules are not restated.
#[verifier::external_body]
pub(crate) fn path_debug_quoted(p: &str) -> (r: String)
    ensures
        r@ == path_debug_text(p@),
{
    format!("{:?}", std::path::Path::new(p))
}

pub open spec fn no_game_installation_message() -> Seq<char> {
    "Could not find game installation path."@
}

pub open spec fn no_game_path_message() -> Seq<char> {
    "Could not find game path."@
}

/// `f(game)` can give `path`.
pub open spec fn path_from_game<S: Fn(&str) -> String>(f: S, game: Seq<char>, path: Seq<char>) -> bool {
    exists|a: &str, out: String| a@ == game && call_ensures(f, (a,), out) && out@ == path
}

/// `f(game, name)` can give `path`.
pub open spec fn path_from_game_and_name<M: Fn(&str, &str) -> String>(
    f: M,
    game: Seq<char>,
    name: Seq<char>,
    path: Seq<char>,
) -> bool {
    exists|a: &str, b: &str, out: String|
        a@ == game && b@ == name && call_ensures(f, (a, b), out) && out@ == path
}

/// `log(level, message)` was called.
pub open spec fn logged<L: FnMut(&str, &str)>(log: L, level: Seq<char>, message: Seq<char>) -> bool {
    exists|a: &str, b: &str|
        #![trigger call_ensures(log, (a, b), ())]
        a@ == level && b@ == message && call_ensures(log, (a, b), ())
}

// ---------------------------------------------------------------------------
// Simple settings flows
// ---------------------------------------------------------------------------

/// Without a game path the reorder fails with `Could not find game
/// installation path.`; else its result is what `reorder_mods_from_settings`
/// gives for the settings file path and the names.
pub open spec fn reorder_outcome<G, S, F>(
    find_game_path: G,
    settings_file_from_game_path: S,
    reorder_mods_from_settings: F,
    ordered_mod_names: Seq<String>,
    r: Result<String, String>,
) -> bool
    where
        G: Fn() -> Option<String>,
        S: Fn(&str) -> String,
        F: Fn(&str, &[String]) -> Result<String, String>,
{
    exists|g: Option<String>|
        #![trigger call_ensures(find_game_path, (), g)]
        call_ensures(find_game_path, (), g) && match g {
            None => r matches Err(m) && m@ == no_game_installation_message(),
            Some(game) => exists|p: &str, q: &[String]|
                #![trigger call_ensures(reorder_mods_from_settings, (p, q), r)]
                path_from_game(settings_file_from_game_path, game@, p@) && q@ == ordered_mod_names
                    && call_ensures(reorder_mods_from_settings, (p, q), r),
        }
}

/// Reorders the mods of the game's settings file: fails when the game path
/// is unknown; else hands the settings file path and the names to
/// `reorder_mods_from_settings` and returns its result.
pub fn reorder_mods_flow<G, S, F>(
    ordered_mod_names: &[String],
    find_game_path: G,
    settings_file_from_game_path: S,
    reorder_mods_from_settings: F,
) -> (r: Result<String, String>)
    where
        G: Fn() -> Option<String>,
        S: Fn(&str) -> String,
        F: Fn(&str, &[String]) -> Result<String, String>,
    requires
        call_requires(find_game_path, ()),
        forall|a: &str| call_requires(settings_file_from_game_path, (a,)),
        forall|a: &str, b: &[String]| call_requires(reorder_mods_from_settings, (a, b)),
    ensures
        reorder_outcome(
            find_game_path,
            settings_file_from_game_path,
            reorder_mods_from_settings,
            ordered_mod_names@,
            r,
        ),
{
    let found = find_game_path();
    match found {
        None => Err("Could not find game installation path.".to_string()),
        Some(game_path) => {
            let g = game_path.as_str();
            let settings_file_path = settings_file_from_game_path(g);
            assert(call_ensures(settings_file_from_game_path, (g,), settings_file_path));
            assert(path_from_game(settings_file_from_game_path, game_path@, settings_file_path@));
            let p = settings_file_path.as_str();
            let r = reorder_mods_from_settings(p, ordered_mod_names);
            assert(call_ensures(reorder_mods_from_settings, (p, ordered_mod_names), r));
            assert(call_ensures(find_game_path, (), Some(game_path)));
            r
        },
    }
}

/// Without a game path the rename fails with `Could not find game
/// installation path.`; else its result is what `rename_mod_in_settings`
/// gives for the settings file path and both names.
pub open spec fn rename_in_settings_outcome<G, S, F>(
    find_game_path: G,
    settings_file_from_game_path: S,
    rename_mod_in_settings: F,
    old_name: Seq<char>,
    new_name: Seq<char>,
    r: Result<String, String>,
) -> bool
    where
        G: Fn() -> Option<String>,
        S: Fn(&str) -> String,
        F: Fn(&str, &str, &str) -> Result<String, String>,
{
    exists|g: Option<String>|
        #![trigger call_ensures(find_game_path, (), g)]
        call_ensures(find_game_path, (), g) && match g {
            None => r matches Err(m) && m@ == no_game_installation_message(),
            Some(game) => exists|p: &str, a: &str, b: &str|
                #![trigger call_ensures(rename_mod_in_settings, (p, a, b), r)]
                path_from_game(settings_file_from_game_path, game@, p@) && a@ == old_name && b@
                    == new_name && call_ensures(rename_mod_in_settings, (p, a, b), r),
        }
}

/// Renames a mod in the game's settings file: fails when the game path is
/// unknown; else hands the settings file path and both names to
/// `rename_mod_in_settings` and returns its result.
pub fn update_mod_name_in_xml_flow<G, S, F>(
    old_name: &str,
    new_name: &str,
    find_game_path: G,
    settings_file_from_game_path: S,
    rename_mod_in_settings: F,
) -> (r: Result<String, String>)
    where
        G: Fn() -> Option<String>,
        S: Fn(&str) -> String,
        F: Fn(&str, &str, &str) -> Result<String, String>,
    requires
        call_requires(find_game_path, ()),
        forall|a: &str| call_requires(settings_file_from_game_path, (a,)),
        forall|a: &str, b: &str, c: &str| call_requires(rename_mod_in_settings, (a, b, c)),
    ensures
        rename_in_settings_outcome(
            find_game_path,
            settings_file_from_game_path,
            rename_mod_in_settings,
            old_name@,
            new_name@,
            r,
        ),
{
    let found = find_game_path();
    match found {
        None => Err("Could not find game installation path.".to_string()),
        Some(game_path) => {
            let g = game_path.as_str();
            let settings_file_path = settings_file_from_game_path(g);
            assert(call_ensures(settings_file_from_game_path, (g,), settings_file_path));
            assert(path_from_game(settings_file_from_game_path, game_path@, settings_file_path@));
            let p = settings_file_path.as_str();
            let r = rename_mod_in_settings(p, old_name, new_name);
            assert(call_ensures(rename_mod_in_settings, (p, old_name, new_name), r));
            r
        },
    }
}

/// Without a game path the update fails with `Could not find game
/// installation path.`; else its result is what `update_mod_id_in_game_path`
/// gives for the game path, the folder and the id.
pub open spec fn update_id_outcome<G, F>(
    find_game_path: G,
    update_mod_id_in_game_path: F,
    mod_folder_name: Seq<char>,
    new_mod_id: Seq<char>,
    r: Result<(), String>,
) -> bool
    where
        G: Fn() -> Option<String>,
        F: Fn(&str, &str, &str) -> Result<(), String>,
{
    exists|g: Option<String>|
        #![trigger call_ensures(find_game_path, (), g)]
        call_ensures(find_game_path, (), g) && match g {
            None => r matches Err(m) && m@ == no_game_installation_message(),
            Some(game) => exists|p: &str, a: &str, b: &str|
                #![trigger call_ensures(update_mod_id_in_game_path, (p, a, b), r)]
                p@ == game@ && a@ == mod_folder_name && b@ == new_mod_id && call_ensures(
                    update_mod_id_in_game_path,
                    (p, a, b),
                    r,
                ),
        }
}

/// Sets a mod's id in its `mod_info.json`: fails when the game path is
/// unknown; else hands the game path, folder and id to
/// `update_mod_id_in_game_path` and returns its result.
pub fn update_mod_id_in_json_flow<G, F>(
    mod_folder_name: &str,
    new_mod_id: &str,
    find_game_path: G,
    update_mod_id_in_game_path: F,
) -> (r: Result<(), String>)
    where
        G: Fn() -> Option<String>,
        F: Fn(&str, &str, &str) -> Result<(), String>,
    requires
        call_requires(find_game_path, ()),
        forall|a: &str, b: &str, c: &str| call_requires(update_mod_id_in_game_path, (a, b, c)),
    ensures
        update_id_outcome(find_game_path, update_mod_id_in_game_path, mod_folder_name@, new_mod_id@, r),
{
    let found = find_game_path();
    match found {
        None => Err("Could not find game installation path.".to_string()),
        Some(game_path) => {
            let p = game_path.as_str();
            let r = update_mod_id_in_game_path(p, mod_folder_name, new_mod_id);
            assert(call_ensures(update_mod_id_in_game_path, (p, mod_folder_name, new_mod_id), r));
            r
        },
    }
}

/// Without a game path writing the fields fails with `Could not find game
/// installation path.`; else its result is what
/// `ensure_mod_info_in_game_path` gives for the game path, folder and fields.
pub open spec fn ensure_info_outcome<G, F>(
    find_game_path: G,
    ensure_mod_info_in_game_path: F,
    mod_folder_name: Seq<char>,
    input: EnsureModInfoInput,
    r: Result<(), String>,
) -> bool
    where
        G: Fn() -> Option<String>,
        F: Fn(&str, &str, &EnsureModInfoInput) -> Result<(), String>,
{
    exists|g: Option<String>|
        #![trigger call_ensures(find_game_path, (), g)]
        call_ensures(find_game_path, (), g) && match g {
            None => r matches Err(m) && m@ == no_game_installation_message(),
            Some(game) => exists|p: &str, a: &str|
                #![trigger call_ensures(ensure_mod_info_in_game_path, (p, a, &input), r)]
                p@ == game@ && a@ == mod_folder_name && call_ensures(
                    ensure_mod_info_in_game_path,
                    (p, a, &input),
                    r,
                ),
        }
}

/// Writes a mod's `mod_info.json` fields: fails when the game path is
/// unknown; else hands the game path, folder and fields to
/// `ensure_mod_info_in_game_path` and returns its result.
pub fn ensure_mod_info_flow<G, F>(
    mod_folder_name: &str,
    input: &EnsureModInfoInput,
    find_game_path: G,
    ensure_mod_info_in_game_path: F,
) -> (r: Result<(), String>)
    where
        G: Fn() -> Option<String>,
        F: Fn(&str, &str, &EnsureModInfoInput) -> Result<(), String>,
    requires
        call_requires(find_game_path, ()),
        forall|a: &str, b: &str, c: &EnsureModInfoInput|
            call_requires(ensure_mod_info_in_game_path, (a, b, c)),
    ensures
        ensure_info_outcome(find_game_path, ensure_mod_info_in_game_path, mod_folder_name@, *input, r),
{
    let found = find_game_path();
    match found {
        None => Err("Could not find game installation path.".to_string()),
        Some(game_path) => {
            let p = game_path.as_str();
            let r = ensure_mod_info_in_game_path(p, mod_folder_name, input);
            assert(call_ensures(ensure_mod_info_in_game_path, (p, mod_folder_name, input), r));
            r
        },
    }
}

// ---------------------------------------------------------------------------
// Delete
// ---------------------------------------------------------------------------

pub open spec fn deleted_folder_message(path: Seq<char>) -> Seq<char> {
    "Deleted folder: "@ + path_debug_text(path)
}

pub open spec fn folder_not_found_message(path: Seq<char>) -> Seq<char> {
    "Folder not found for deletion: "@ + path_debug_text(path)
}

/// The delete flow from the mod's folder path on: remove the folder (its
/// error ends the flow), log whether it was there, remove the mod from the
/// settings file at `settings` (its error ends the flow), then list the mods.
pub open spec fn delete_after_paths<X, D, L, Q>(
    mod_name: Seq<char>,
    settings: Seq<char>,
    folder: Seq<char>,
    maybe_remove_mod_folder: X,
    delete_mod_and_save_settings: D,
    log: L,
    get_all_mods_for_render: Q,
    r: Result<Vec<ModRenderData>, String>,
) -> bool
    where
        X: Fn(&str, &str) -> Result<bool, String>,
        D: Fn(&str, &str) -> Result<(), String>,
        L: Fn(&str, &str),
        Q: Fn() -> Result<Vec<ModRenderData>, String>,
{
    exists|a: &str, b: &str, removed: Result<bool, String>|
        #![trigger call_ensures(maybe_remove_mod_folder, (a, b), removed)]
        a@ == folder && b@ == mod_name && call_ensures(maybe_remove_mod_folder, (a, b), removed)
            && match removed {
            Err(e) => r == Err::<Vec<ModRenderData>, String>(e),
            Ok(was_there) => {
                &&& was_there ==> logged(log, "INFO"@, deleted_folder_message(folder))
                &&& !was_there ==> logged(log, "WARN"@, folder_not_found_message(folder))
                &&& exists|c: &str, d: &str, saved: Result<(), String>|
                    #![trigger call_ensures(delete_mod_and_save_settings, (c, d), saved)]
                    c@ == settings && d@ == mod_name && call_ensures(
                        delete_mod_and_save_settings,
                        (c, d),
                        saved,
                    ) && match saved {
                        Err(e) => r == Err::<Vec<ModRenderData>, String>(e),
                        Ok(()) => call_ensures(get_all_mods_for_render, (), r),
                    }
            },
        }
}

/// Without a game path the delete fails with `Could not find game
/// installation path.`; else the settings and folder paths are built and
/// `delete_after_paths` holds.
pub open spec fn delete_outcome<G, S, M, X, D, L, Q>(
    find_game_path: G,
    settings_file_from_game_path: S,
    mod_folder_path: M,
    maybe_remove_mod_folder: X,
    delete_mod_and_save_settings: D,
    log: L,
    get_all_mods_for_render: Q,
    mod_name: Seq<char>,
    r: Result<Vec<ModRenderData>, String>,
) -> bool
    where
        G: Fn() -> Option<String>,
        S: Fn(&str) -> String,
        M: Fn(&str, &str) -> String,
        X: Fn(&str, &str) -> Result<bool, String>,
        D: Fn(&str, &str) -> Result<(), String>,
        L: Fn(&str, &str),
        Q: Fn() -> Result<Vec<ModRenderData>, String>,
{
    exists|g: Option<String>|
        #![trigger call_ensures(find_game_path, (), g)]
        call_ensures(find_game_path, (), g) && match g {
            None => r matches Err(m) && m@ == no_game_installation_message(),
            Some(game) => exists|settings: Seq<char>, folder: Seq<char>|
                #![trigger path_from_game(settings_file_from_game_path, game@, settings), path_from_game_and_name(mod_folder_path, game@, mod_name, folder)]
                path_from_game(settings_file_from_game_path, game@, settings)
                    && path_from_game_and_name(mod_folder_path, game@, mod_name, folder)
                    && delete_after_paths(
                    mod_name,
                    settings,
                    folder,
                    maybe_remove_mod_folder,
                    delete_mod_and_save_settings,
                    log,
                    get_all_mods_for_render,
                    r,
                ),
        }
}

/// Deletes a mod: fails when the game path is unknown; else removes the
/// mod's folder, logs what happened, removes the mod from the settings file
/// and returns the refreshed mod list. The first failing step ends the flow
/// with its error.
pub fn delete_mod_flow<G, S, M, X, D, L, Q>(
    mod_name: String,
    find_game_path: G,
    settings_file_from_game_path: S,
    mod_folder_path: M,
    maybe_remove_mod_folder: X,
    delete_mod_and_save_settings: D,
    log: L,
    get_all_mods_for_render: Q,
) -> (r: Result<Vec<ModRenderData>, String>)
    where
        G: Fn() -> Option<String>,
        S: Fn(&str) -> String,
        M: Fn(&str, &str) -> String,
        X: Fn(&str, &str) -> Result<bool, String>,
        D: Fn(&str, &str) -> Result<(), String>,
        L: Fn(&str, &str),
        Q: Fn() -> Result<Vec<ModRenderData>, String>,
    requires
        call_requires(find_game_path, ()),
        forall|a: &str| call_requires(settings_file_from_game_path, (a,)),
        forall|a: &str, b: &str| call_requires(mod_folder_path, (a, b)),
        forall|a: &str, b: &str| call_requires(maybe_remove_mod_folder, (a, b)),
        forall|a: &str, b: &str| call_requires(delete_mod_and_save_settings, (a, b)),
        forall|a: &str, b: &str| call_requires(log, (a, b)),
        call_requires(get_all_mods_for_render, ()),
    ensures
        delete_outcome(
            find_game_path,
            settings_file_from_game_path,
            mod_folder_path,
            maybe_remove_mod_folder,
            delete_mod_and_save_settings,
            log,
            get_all_mods_for_render,
            mod_name@,
            r,
        ),
{
    let found = find_game_path();
    let game_path = match found {
        None => {
            return Err("Could not find game installation path.".to_string());
        },
        Some(g) => g,
    };
    let g = game_path.as_str();
    let settings_file_path = settings_file_from_game_path(g);
    assert(call_ensures(settings_file_from_game_path, (g,), settings_file_path));
    let n = mod_name.as_str();
    let mod_to_delete_path = mod_folder_path(g, n);
    assert(call_ensures(mod_folder_path, (g, n), mod_to_delete_path));
    assert(path_from_game(settings_file_from_game_path, game_path@, settings_file_path@));
    assert(path_from_game_and_name(mod_folder_path, game_path@, mod_name@, mod_to_delete_path@));
    let folder = mod_to_delete_path.as_str();
    let removed = maybe_remove_mod_folder(folder, n);
    assert(call_ensures(maybe_remove_mod_folder, (folder, n), removed));
    let was_there = match removed {
        Err(e) => {
            proof {
                assert(delete_after_paths(
                    mod_name@,
                    settings_file_path@,
                    mod_to_delete_path@,
                    maybe_remove_mod_folder,
                    delete_mod_and_save_settings,
                    log,
                    get_all_mods_for_render,
                    Err(e),
                ));
            }
            return Err(e);
        },
        Ok(b) => b,
    };
    let shown = path_debug_quoted(folder);
    if was_there {
        let message = concat2("Deleted folder: ", shown.as_str());
        let level = "INFO";
        let m = message.as_str();
        log(level, m);
        assert(call_ensures(log, (level, m), ()));
    } else {
        let message = concat2("Folder not found for deletion: ", shown.as_str());
        let level = "WARN";
        let m = message.as_str();
        log(level, m);
        assert(call_ensures(log, (level, m), ()));
    }
    let s = settings_file_path.as_str();
    let saved = delete_mod_and_save_settings(s, n);
    assert(call_ensures(delete_mod_and_save_settings, (s, n), saved));
    let r = match saved {
        Err(e) => Err(e),
        Ok(()) => get_all_mods_for_render(),
    };
    assert(delete_after_paths(
        mod_name@,
        settings_file_path@,
        mod_to_delete_path@,
        maybe_remove_mod_folder,
        delete_mod_and_save_settings,
        log,
        get_all_mods_for_render,
        r,
    ));
    r
}

// ---------------------------------------------------------------------------
// Rename
// ---------------------------------------------------------------------------

pub open spec fn library_synced_message() -> Seq<char> {
    "Synced folder rename to Library successfully."@
}

/// What syncing a rename into the library does once the mod's info was read:
/// nothing without an install source or a library folder; else the sync is
/// run for `<library>`, the source archive and both names, and its outcome
/// logged (`INFO` when renamed, `WARN` with the error on failure).
pub open spec fn sync_after_info<B, Y, L>(
    info: Option<ModInfo>,
    old_name: Seq<char>,
    new_name: Seq<char>,
    get_library_dir: B,
    sync_library_folder_rename: Y,
    log: L,
) -> bool
    where
        B: Fn() -> Result<String, String>,
        Y: Fn(&str, &str, &str, &str) -> Result<LibraryRenameSync, String>,
        L: Fn(&str, &str),
{
    match info {
        None => true,
        Some(mi) => match mi.install_source {
            None => true,
            Some(source_zip) => exists|lib: Result<String, String>|
                call_ensures(get_library_dir, (), lib) && match lib {
                    Err(_) => true,
                    Ok(library_dir) => exists|a: &str, b: &str, c: &str, d: &str, out: Result<LibraryRenameSync, String>|
                        a@ == library_dir@ && b@ == source_zip@ && c@ == old_name && d@ == new_name
                            && call_ensures(sync_library_folder_rename, (a, b, c, d), out)
                            && match out {
                            Ok(LibraryRenameSync::Renamed) => logged(log, "INFO"@, library_synced_message()),
                            Ok(_) => true,
                            Err(e) => logged(log, "WARN"@, e@),
                        },
                },
        },
    }
}

/// The sync step of a rename ran for the folder at `old_path`: the folder's
/// mod info was read and `sync_after_info` holds of it.
pub open spec fn synced_via<I, B, Y, L>(
    read_mod_info: I,
    get_library_dir: B,
    sync_library_folder_rename: Y,
    log: L,
    old_path: Seq<char>,
    old_name: Seq<char>,
    new_name: Seq<char>,
) -> bool
    where
        I: Fn(&str) -> Option<ModInfo>,
        B: Fn() -> Result<String, String>,
        Y: Fn(&str, &str, &str, &str) -> Result<LibraryRenameSync, String>,
        L: Fn(&str, &str),
{
    exists|a: &str, info: Option<ModInfo>|
        #![trigger call_ensures(read_mod_info, (a,), info)]
        a@ == old_path && call_ensures(read_mod_info, (a,), info) && sync_after_info(
            info,
            old_name,
            new_name,
            get_library_dir,
            sync_library_folder_rename,
            log,
        )
}

/// Syncs a mod folder rename into the library copy of the archive it came
/// from, when its `mod_info.json` names one.
pub fn maybe_sync_library_rename_for_mod<I, B, Y, L>(
    old_path: &str,
    old_name: &str,
    new_name: &str,
    read_mod_info: I,
    get_library_dir: B,
    sync_library_folder_rename: Y,
    log: L,
)
    where
        I: Fn(&str) -> Option<ModInfo>,
        B: Fn() -> Result<String, String>,
        Y: Fn(&str, &str, &str, &str) -> Result<LibraryRenameSync, String>,
        L: Fn(&str, &str),
    requires
        forall|a: &str| call_requires(read_mod_info, (a,)),
        call_requires(get_library_dir, ()),
        forall|a: &str, b: &str, c: &str, d: &str| call_requires(sync_library_folder_rename, (a, b, c, d)),
        forall|a: &str, b: &str| call_requires(log, (a, b)),
    ensures
        synced_via(read_mod_info, get_library_dir, sync_library_folder_rename, log, old_path@, old_name@, new_name@),
{
    let info = read_mod_info(old_path);
    assert(call_ensures(read_mod_info, (old_path,), info));
    let mi = match info {
        None => {
            return;
        },
        Some(mi) => mi,
    };
    let source_zip = match mi.install_source {
        None => {
            return;
        },
        Some(s) => s,
    };
    let lib = get_library_dir();
    let library_dir = match lib {
        Err(_) => {
            return;
        },
        Ok(l) => l,
    };
    let a = library_dir.as_str();
    let b = source_zip.as_str();
    let out = sync_library_folder_rename(a, b, old_name, new_name);
    assert(call_ensures(sync_library_folder_rename, (a, b, old_name, new_name), out));
    match out {
        Ok(LibraryRenameSync::Renamed) => {
            let level = "INFO";
            let message = "Synced folder rename to Library successfully.";
            log(level, message);
            assert(call_ensures(log, (level, message), ()));
        },
        Ok(_) => {},
        Err(e) => {
            let level = "WARN";
            let m = e.as_str();
            log(level, m);
            assert(call_ensures(log, (level, m), ()));
        },
    }
}

pub open spec fn xml_update_failed_message(e: Seq<char>) -> Seq<char> {
    "Folder renamed, but XML update failed: "@ + e
}

/// What persisting a rename into an existing settings file does: the names
/// are handed to the update step (`updated` relates its inputs and output);
/// its XML is saved to the settings file (a failed save is ignored); its
/// error is logged as a warning.
pub open spec fn persist_after_exists<W, L>(
    settings_file: Seq<char>,
    old_name: String,
    new_name: String,
    updated: spec_fn(String, String, Result<String, String>) -> bool,
    save_file: W,
    log: L,
) -> bool
    where
        W: Fn(String, String) -> Result<(), String>,
        L: Fn(&str, &str),
{
    exists|out: Result<String, String>|
        #![trigger updated(old_name, new_name, out)]
        updated(old_name, new_name, out) && match out {
            Ok(xml) => exists|p: String, saved: Result<(), String>|
                p@ == settings_file && call_ensures(save_file, (p, xml), saved),
            Err(e) => logged(log, "WARN"@, xml_update_failed_message(e@)),
        }
}

/// The persist step of a rename ran for the settings file at `settings_file`:
/// its existence was probed and, when it exists, `persist_after_exists` holds.
pub open spec fn persisted_via<E, W, L>(
    path_exists: E,
    updated: spec_fn(String, String, Result<String, String>) -> bool,
    save_file: W,
    log: L,
    settings_file: Seq<char>,
    old_name: String,
    new_name: String,
) -> bool
    where
        E: Fn(&str) -> bool,
        W: Fn(String, String) -> Result<(), String>,
        L: Fn(&str, &str),
{
    exists|a: &str, present: bool|
        #![trigger call_ensures(path_exists, (a,), present)]
        a@ == settings_file && call_ensures(path_exists, (a,), present) && (present
            ==> persist_after_exists(settings_file, old_name, new_name, updated, save_file, log))
}

/// Writes a mod rename into the settings file, when that file exists.
pub fn maybe_persist_renamed_mod_settings<E, U, W, L>(
    settings_file: &str,
    old_name: String,
    new_name: String,
    path_exists: E,
    update_mod_name_in_xml: U,
    save_file: W,
    log: L,
)
    where
        E: Fn(&str) -> bool,
        U: Fn(String, String) -> Result<String, String>,
        W: Fn(String, String) -> Result<(), String>,
        L: Fn(&str, &str),
    requires
        forall|a: &str| call_requires(path_exists, (a,)),
        forall|a: String, b: String| call_requires(update_mod_name_in_xml, (a, b)),
        forall|a: String, b: String| call_requires(save_file, (a, b)),
        forall|a: &str, b: &str| call_requires(log, (a, b)),
    ensures
        persisted_via(
            path_exists,
            |a: String, b: String, o: Result<String, String>| call_ensures(update_mod_name_in_xml, (a, b), o),
            save_file,
            log,
            settings_file@,
            old_name,
            new_name,
        ),
{
    let ghost updated = |a: String, b: String, o: Result<String, String>|
        call_ensures(update_mod_name_in_xml, (a, b), o);
    let present = path_exists(settings_file);
    assert(call_ensures(path_exists, (settings_file,), present));
    if !present {
        return;
    }
    let ghost on = old_name;
    let ghost nn = new_name;
    let out = update_mod_name_in_xml(old_name, new_name);
    assert(call_ensures(update_mod_name_in_xml, (on, nn), out));
    assert(updated(on, nn, out));
    match out {
        Ok(new_xml) => {
            let p = owned(settings_file);
            let ghost pv = p;
            let ghost xv = new_xml;
            let saved = save_file(p, new_xml);
            assert(call_ensures(save_file, (pv, xv), saved));
        },
        Err(e) => {
            let message = concat2("Folder renamed, but XML update failed: ", e.as_str());
            let level = "WARN";
            let m = message.as_str();
            log(level, m);
            assert(call_ensures(log, (level, m), ()));
        },
    }
    assert(persist_after_exists(settings_file@, on, nn, updated, save_file, log));
}


/// `f(path)` can give `b`.
pub open spec fn probe_of<E: Fn(&str) -> bool>(f: E, path: Seq<char>, b: bool) -> bool {
    exists|a: &str| #![trigger call_ensures(f, (a,), b)] a@ == path && call_ensures(f, (a,), b)
}

/// The rename flow from the two folder paths on: both are probed, the
/// probes are validated (its error ends the flow), the sync step runs, the
/// folder is renamed (its error ends the flow), the persist step runs for
/// the settings file, and the mods are listed. `synced` and `persisted` say
/// what the sync and persist steps did.
pub open spec fn rename_after_paths<E, V, R, S, Q>(
    game: Seq<char>,
    old_name: String,
    new_name: String,
    old_path: Seq<char>,
    new_path: Seq<char>,
    path_exists: E,
    validate_rename_paths: V,
    synced: spec_fn(Seq<char>, Seq<char>, Seq<char>) -> bool,
    rename_dir: R,
    settings_file_from_game_path: S,
    persisted: spec_fn(Seq<char>, String, String) -> bool,
    get_all_mods_for_render: Q,
    r: Result<Vec<ModRenderData>, String>,
) -> bool
    where
        E: Fn(&str) -> bool,
        V: Fn(bool, bool) -> Result<(), String>,
        R: Fn(&str, &str) -> Result<(), String>,
        S: Fn(&str) -> String,
        Q: Fn() -> Result<Vec<ModRenderData>, String>,
{
    exists|old_exists: bool, new_exists: bool, validated: Result<(), String>|
        #![trigger call_ensures(validate_rename_paths, (old_exists, new_exists), validated)]
        probe_of(path_exists, old_path, old_exists) && probe_of(path_exists, new_path, new_exists)
            && call_ensures(validate_rename_paths, (old_exists, new_exists), validated)
            && match validated {
            Err(e) => r == Err::<Vec<ModRenderData>, String>(e),
            Ok(()) => {
                &&& synced(old_path, old_name@, new_name@)
                &&& exists|a: &str, b: &str, renamed: Result<(), String>|
                    #![trigger call_ensures(rename_dir, (a, b), renamed)]
                    a@ == old_path && b@ == new_path && call_ensures(rename_dir, (a, b), renamed)
                        && match renamed {
                        Err(e) => r == Err::<Vec<ModRenderData>, String>(e),
                        Ok(()) => exists|sf: Seq<char>|
                            #![trigger path_from_game(settings_file_from_game_path, game, sf)]
                            path_from_game(settings_file_from_game_path, game, sf)
                                && persisted(sf, old_name, new_name)
                                && call_ensures(get_all_mods_for_render, (), r),
                    }
            },
        }
}

/// The whole rename flow: no game path gives `Could not find game path.`;
/// else the two folder paths are built and `rename_after_paths` holds.
pub open spec fn rename_outcome<G, M, E, V, R, S, Q>(
    old_name: String,
    new_name: String,
    find_game_path: G,
    mod_folder_path: M,
    path_exists: E,
    validate_rename_paths: V,
    synced: spec_fn(Seq<char>, Seq<char>, Seq<char>) -> bool,
    rename_dir: R,
    settings_file_from_game_path: S,
    persisted: spec_fn(Seq<char>, String, String) -> bool,
    get_all_mods_for_render: Q,
    r: Result<Vec<ModRenderData>, String>,
) -> bool
    where
        G: Fn() -> Option<String>,
        M: Fn(&str, &str) -> String,
        E: Fn(&str) -> bool,
        V: Fn(bool, bool) -> Result<(), String>,
        R: Fn(&str, &str) -> Result<(), String>,
        S: Fn(&str) -> String,
        Q: Fn() -> Result<Vec<ModRenderData>, String>,
{
    exists|g: Option<String>|
        #![trigger call_ensures(find_game_path, (), g)]
        call_ensures(find_game_path, (), g) && match g {
            None => r matches Err(m) && m@ == no_game_path_message(),
            Some(game) => exists|old_path: Seq<char>, new_path: Seq<char>|
                #![trigger path_from_game_and_name(mod_folder_path, game@, old_name@, old_path), path_from_game_and_name(mod_folder_path, game@, new_name@, new_path)]
                path_from_game_and_name(mod_folder_path, game@, old_name@, old_path)
                    && path_from_game_and_name(mod_folder_path, game@, new_name@, new_path)
                    && rename_after_paths(
                    game@,
                    old_name,
                    new_name,
                    old_path,
                    new_path,
                    path_exists,
                    validate_rename_paths,
                    synced,
                    rename_dir,
                    settings_file_from_game_path,
                    persisted,
                    get_all_mods_for_render,
                    r,
                ),
        }
}

/// A rename outcome stays one when the sync and persist steps are described
/// by weaker relations.
pub proof fn lemma_rename_outcome_weaken<G, M, E, V, R, S, Q>(
    old_name: String,
    new_name: String,
    find_game_path: G,
    mod_folder_path: M,
    path_exists: E,
    validate_rename_paths: V,
    synced: spec_fn(Seq<char>, Seq<char>, Seq<char>) -> bool,
    synced2: spec_fn(Seq<char>, Seq<char>, Seq<char>) -> bool,
    rename_dir: R,
    settings_file_from_game_path: S,
    persisted: spec_fn(Seq<char>, String, String) -> bool,
    persisted2: spec_fn(Seq<char>, String, String) -> bool,
    get_all_mods_for_render: Q,
    r: Result<Vec<ModRenderData>, String>,
)
    where
        G: Fn() -> Option<String>,
        M: Fn(&str, &str) -> String,
        E: Fn(&str) -> bool,
        V: Fn(bool, bool) -> Result<(), String>,
        R: Fn(&str, &str) -> Result<(), String>,
        S: Fn(&str) -> String,
        Q: Fn() -> Result<Vec<ModRenderData>, String>,
    requires
        rename_outcome(
            old_name,
            new_name,
            find_game_path,
            mod_folder_path,
            path_exists,
            validate_rename_paths,
            synced,
            rename_dir,
            settings_file_from_game_path,
            persisted,
            get_all_mods_for_render,
            r,
        ),
        forall|a: Seq<char>, b: Seq<char>, c: Seq<char>| #[trigger] synced(a, b, c) ==> synced2(a, b, c),
        forall|a: Seq<char>, b: String, c: String| #[trigger] persisted(a, b, c) ==> persisted2(a, b, c),
    ensures
        rename_outcome(
            old_name,
            new_name,
            find_game_path,
            mod_folder_path,
            path_exists,
            validate_rename_paths,
            synced2,
            rename_dir,
            settings_file_from_game_path,
            persisted2,
            get_all_mods_for_render,
            r,
        ),
{
    let g = choose|g: Option<String>|
        #![trigger call_ensures(find_game_path, (), g)]
        call_ensures(find_game_path, (), g) && match g {
            None => r matches Err(m) && m@ == no_game_path_message(),
            Some(game) => exists|old_path: Seq<char>, new_path: Seq<char>|
                #![trigger path_from_game_and_name(mod_folder_path, game@, old_name@, old_path), path_from_game_and_name(mod_folder_path, game@, new_name@, new_path)]
                path_from_game_and_name(mod_folder_path, game@, old_name@, old_path)
                    && path_from_game_and_name(mod_folder_path, game@, new_name@, new_path)
                    && rename_after_paths(
                    game@,
                    old_name,
                    new_name,
                    old_path,
                    new_path,
                    path_exists,
                    validate_rename_paths,
                    synced,
                    rename_dir,
                    settings_file_from_game_path,
                    persisted,
                    get_all_mods_for_render,
                    r,
                ),
        };
    if let Some(game) = g {
        let (old_path, new_path) = choose|old_path: Seq<char>, new_path: Seq<char>|
            #![trigger path_from_game_and_name(mod_folder_path, game@, old_name@, old_path), path_from_game_and_name(mod_folder_path, game@, new_name@, new_path)]
            path_from_game_and_name(mod_folder_path, game@, old_name@, old_path)
                && path_from_game_and_name(mod_folder_path, game@, new_name@, new_path)
                && rename_after_paths(
                game@,
                old_name,
                new_name,
                old_path,
                new_path,
                path_exists,
                validate_rename_paths,
                synced,
                rename_dir,
                settings_file_from_game_path,
                persisted,
                get_all_mods_for_render,
                r,
            );
        assert(rename_after_paths(
            game@,
            old_name,
            new_name,
            old_path,
            new_path,
            path_exists,
            validate_rename_paths,
            synced2,
            rename_dir,
            settings_file_from_game_path,
            persisted2,
            get_all_mods_for_render,
            r,
        ));
    }
}

/// The sync step of `rename_mod_folder_flow` was called with these values.
pub open spec fn ran_sync<Y: Fn(&str, &str, &str)>(y: Y, p: Seq<char>, o: Seq<char>, n: Seq<char>) -> bool {
    exists|a: &str, b: &str, c: &str|
        #![trigger call_ensures(y, (a, b, c), ())]
        a@ == p && b@ == o && c@ == n && call_ensures(y, (a, b, c), ())
}

/// The persist step of `rename_mod_folder_flow` was called with these values.
pub open spec fn ran_persist<P: Fn(&str, String, String)>(f: P, sf: Seq<char>, o: String, n: String) -> bool {
    exists|a: &str| #![trigger call_ensures(f, (a, o, n), ())] a@ == sf && call_ensures(f, (a, o, n), ())
}

/// Renames a mod folder: fails when the game path is unknown; else checks
/// both folder paths, syncs the library copy, renames the folder, writes the
/// rename into the settings file and returns the refreshed mod list. The
/// first failing step ends the flow with its error.
pub fn rename_mod_folder_flow<G, M, E, V, Y, R, S, P, Q>(
    old_name: String,
    new_name: String,
    find_game_path: G,
    mod_folder_path: M,
    path_exists: E,
    validate_rename_paths: V,
    maybe_sync_library_rename: Y,
    rename_dir: R,
    settings_file_from_game_path: S,
    persist_renamed_settings: P,
    get_all_mods_for_render: Q,
) -> (r: Result<Vec<ModRenderData>, String>)
    where
        G: Fn() -> Option<String>,
        M: Fn(&str, &str) -> String,
        E: Fn(&str) -> bool,
        V: Fn(bool, bool) -> Result<(), String>,
        Y: Fn(&str, &str, &str),
        R: Fn(&str, &str) -> Result<(), String>,
        S: Fn(&str) -> String,
        P: Fn(&str, String, String),
        Q: Fn() -> Result<Vec<ModRenderData>, String>,
    requires
        call_requires(find_game_path, ()),
        forall|a: &str, b: &str| call_requires(mod_folder_path, (a, b)),
        forall|a: &str| call_requires(path_exists, (a,)),
        forall|a: bool, b: bool| call_requires(validate_rename_paths, (a, b)),
        forall|a: &str, b: &str, c: &str| call_requires(maybe_sync_library_rename, (a, b, c)),
        forall|a: &str, b: &str| call_requires(rename_dir, (a, b)),
        forall|a: &str| call_requires(settings_file_from_game_path, (a,)),
        forall|a: &str, b: String, c: String| call_requires(persist_renamed_settings, (a, b, c)),
        call_requires(get_all_mods_for_render, ()),
    ensures
        rename_outcome(
            old_name,
            new_name,
            find_game_path,
            mod_folder_path,
            path_exists,
            validate_rename_paths,
            |p: Seq<char>, o: Seq<char>, n: Seq<char>| ran_sync(maybe_sync_library_rename, p, o, n),
            rename_dir,
            settings_file_from_game_path,
            |sf: Seq<char>, o: String, n: String| ran_persist(persist_renamed_settings, sf, o, n),
            get_all_mods_for_render,
            r,
        ),
{
    let ghost synced = |p: Seq<char>, o: Seq<char>, n: Seq<char>| ran_sync(maybe_sync_library_rename, p, o, n);
    let ghost persisted = |sf: Seq<char>, o: String, n: String| ran_persist(persist_renamed_settings, sf, o, n);
    let ghost on_v = old_name;
    let ghost nn_v = new_name;
    let found = find_game_path();
    let game_path = match found {
        None => {
            return Err("Could not find game path.".to_string());
        },
        Some(g) => g,
    };
    assert(call_ensures(find_game_path, (), Some(game_path)));
    let g = game_path.as_str();
    let on = old_name.as_str();
    let nn = new_name.as_str();
    let old_path = mod_folder_path(g, on);
    assert(call_ensures(mod_folder_path, (g, on), old_path));
    let new_path = mod_folder_path(g, nn);
    assert(call_ensures(mod_folder_path, (g, nn), new_path));
    assert(path_from_game_and_name(mod_folder_path, game_path@, old_name@, old_path@));
    assert(path_from_game_and_name(mod_folder_path, game_path@, new_name@, new_path@));
    let op = old_path.as_str();
    let np = new_path.as_str();
    let old_exists = path_exists(op);
    assert(call_ensures(path_exists, (op,), old_exists));
    assert(probe_of(path_exists, old_path@, old_exists));
    let new_exists = path_exists(np);
    assert(call_ensures(path_exists, (np,), new_exists));
    assert(probe_of(path_exists, new_path@, new_exists));
    let validated = validate_rename_paths(old_exists, new_exists);
    assert(call_ensures(validate_rename_paths, (old_exists, new_exists), validated));
    if let Err(e) = validated {
        assert(rename_after_paths(
            game_path@,
            on_v,
            nn_v,
            old_path@,
            new_path@,
            path_exists,
            validate_rename_paths,
            synced,
            rename_dir,
            settings_file_from_game_path,
            persisted,
            get_all_mods_for_render,
            Err(e),
        ));
        return Err(e);
    }
    maybe_sync_library_rename(op, on, nn);
    assert(call_ensures(maybe_sync_library_rename, (op, on, nn), ()));
    assert(synced(old_path@, on_v@, nn_v@));
    let renamed = rename_dir(op, np);
    assert(call_ensures(rename_dir, (op, np), renamed));
    if let Err(e) = renamed {
        assert(rename_after_paths(
            game_path@,
            on_v,
            nn_v,
            old_path@,
            new_path@,
            path_exists,
            validate_rename_paths,
            synced,
            rename_dir,
            settings_file_from_game_path,
            persisted,
            get_all_mods_for_render,
            Err(e),
        ));
        return Err(e);
    }
    let settings_file = settings_file_from_game_path(g);
    assert(call_ensures(settings_file_from_game_path, (g,), settings_file));
    assert(path_from_game(settings_file_from_game_path, game_path@, settings_file@));
    let sf = settings_file.as_str();
    persist_renamed_settings(sf, old_name, new_name);
    assert(call_ensures(persist_renamed_settings, (sf, on_v, nn_v), ()));
    assert(persisted(settings_file@, on_v, nn_v));
    let r = get_all_mods_for_render();
    assert(rename_after_paths(
        game_path@,
        on_v,
        nn_v,
        old_path@,
        new_path@,
        path_exists,
        validate_rename_paths,
        synced,
        rename_dir,
        settings_file_from_game_path,
        persisted,
        get_all_mods_for_render,
        r,
    ));
    r
}

/// A persist step stays one when its update step is described by a weaker
/// relation.
pub proof fn lemma_persisted_via_weaken<E, W, L>(
    path_exists: E,
    updated: spec_fn(String, String, Result<String, String>) -> bool,
    updated2: spec_fn(String, String, Result<String, String>) -> bool,
    save_file: W,
    log: L,
    settings_file: Seq<char>,
    old_name: String,
    new_name: String,
)
    where
        E: Fn(&str) -> bool,
        W: Fn(String, String) -> Result<(), String>,
        L: Fn(&str, &str),
    requires
        persisted_via(path_exists, updated, save_file, log, settings_file, old_name, new_name),
        forall|a: String, b: String, o: Result<String, String>| #[trigger] updated(a, b, o) ==> updated2(a, b, o),
    ensures
        persisted_via(path_exists, updated2, save_file, log, settings_file, old_name, new_name),
{
    let (a, present) = choose|a: &str, present: bool|
        #![trigger call_ensures(path_exists, (a,), present)]
        a@ == settings_file && call_ensures(path_exists, (a,), present) && (present
            ==> persist_after_exists(settings_file, old_name, new_name, updated, save_file, log));
    if present {
        let out = choose|out: Result<String, String>|
            #![trigger updated(old_name, new_name, out)]
            updated(old_name, new_name, out) && match out {
                Ok(xml) => exists|p: String, saved: Result<(), String>|
                    p@ == settings_file && call_ensures(save_file, (p, xml), saved),
                Err(e) => logged(log, "WARN"@, xml_update_failed_message(e@)),
            };
        assert(updated2(old_name, new_name, out));
        assert(persist_after_exists(settings_file, old_name, new_name, updated2, save_file, log));
    }
}

/// Logs a failed download as an error; the result is passed through.
pub fn log_download_failure<L: Fn(&str, &str)>(result: Result<DownloadResult, String>, log: L) -> (r: Result<
    DownloadResult,
    String,
>)
    requires
        forall|a: &str, b: &str| call_requires(log, (a, b)),
    ensures
        r == result,
        result matches Err(e) ==> logged(log, "ERROR"@, e@),
{
    if let Err(e) = &result {
        let level = "ERROR";
        let m = e.as_str();
        log(level, m);
        assert(call_ensures(log, (level, m), ()));
    }
    result
}

pub open spec fn str_opt_view(o: Option<&str>) -> Option<Seq<char>> {
    match o {
        Some(s) => Some(s@),
        None => None,
    }
}

/// What downloading a mod archive gives: without the downloads folder its
/// error; else what `download_archive_to_path` gives for the URL, the path
/// `<downloads>/<file_name>` and the download id, a failure being logged as
/// an error.
pub open spec fn download_outcome<D, F, L>(
    file_name: Seq<char>,
    download_url: Seq<char>,
    download_id: Option<Seq<char>>,
    get_downloads_dir: D,
    download_archive_to_path: F,
    log: L,
    r: Result<DownloadResult, String>,
) -> bool
    where
        D: FnOnce() -> Result<String, String>,
        F: FnOnce(String, String, Option<String>) -> Result<DownloadResult, String>,
        L: Fn(&str, &str),
{
    exists|dl: Result<String, String>|
        #![trigger call_ensures(get_downloads_dir, (), dl)]
        call_ensures(get_downloads_dir, (), dl) && match dl {
            Err(e) => r == Err::<DownloadResult, String>(e),
            Ok(dir) => exists|u: String, p: String, i: Option<String>|
                #![trigger call_ensures(download_archive_to_path, (u, p, i), r)]
                u@ == download_url && p@ == path_join(dir@, file_name) && opt_view(i) == download_id
                    && call_ensures(download_archive_to_path, (u, p, i), r) && (r matches Err(e)
                    ==> logged(log, "ERROR"@, e@)),
        }
}

/// Downloads a mod archive into the downloads folder (see
/// `download_outcome`).
pub fn download_mod_archive_flow<D, F, L>(
    file_name: &str,
    download_url: &str,
    download_id: Option<&str>,
    get_downloads_dir: D,
    download_archive_to_path: F,
    log: L,
) -> (r: Result<DownloadResult, String>)
    where
        D: FnOnce() -> Result<String, String>,
        F: FnOnce(String, String, Option<String>) -> Result<DownloadResult, String>,
        L: Fn(&str, &str),
    requires
        call_requires(get_downloads_dir, ()),
        forall|u: String, p: String, i: Option<String>| call_requires(download_archive_to_path, (u, p, i)),
        forall|a: &str, b: &str| call_requires(log, (a, b)),
    ensures
        download_outcome(
            file_name@,
            download_url@,
            str_opt_view(download_id),
            get_downloads_dir,
            download_archive_to_path,
            log,
            r,
        ),
{
    let dl = get_downloads_dir();
    assert(call_ensures(get_downloads_dir, (), dl));
    let downloads_path = match dl {
        Err(e) => {
            return Err(e);
        },
        Ok(d) => d,
    };
    let final_archive_path = join_path(downloads_path.as_str(), file_name);
    let id = match download_id {
        Some(s) => Some(owned(s)),
        None => None,
    };
    let u = owned(download_url);
    let ghost (gu, gp, gi) = (u, final_archive_path, id);
    let result = download_archive_to_path(u, final_archive_path, id);
    assert(call_ensures(download_archive_to_path, (gu, gp, gi), result));
    log_download_failure(result, log)
}

} // verus!
