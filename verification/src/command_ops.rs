//! Paths of the game's mod folders and settings file, and the checks made
//! before a mod folder is renamed.
use vstd::prelude::*;
use crate::paths::{join_path, path_join};
use crate::text::{concat2, concat3};

verus! {

pub open spec fn mods_root_spec(game_path: Seq<char>) -> Seq<char> {
    path_join(path_join(game_path, "GAMEDATA"@), "MODS"@)
}

pub open spec fn settings_file_spec(game_path: Seq<char>) -> Seq<char> {
    path_join(path_join(path_join(game_path, "Binaries"@), "SETTINGS"@), "GCMODSETTINGS.MXML"@)
}

pub open spec fn mod_folder_spec(game_path: Seq<char>, mod_name: Seq<char>) -> Seq<char> {
    path_join(mods_root_spec(game_path), mod_name)
}

pub open spec fn library_unpacked_spec(library_dir: Seq<char>, source_zip: Seq<char>) -> Seq<char> {
    path_join(library_dir, source_zip + "_unpacked"@)
}

/// `<game>/GAMEDATA/MODS`.
pub fn mods_root_from_game_path(game_path: &str) -> (r: String)
    ensures
        r@ == mods_root_spec(game_path@),
{
    let gamedata = join_path(game_path, "GAMEDATA");
    join_path(gamedata.as_str(), "MODS")
}

/// `<game>/Binaries/SETTINGS/GCMODSETTINGS.MXML`.
pub fn settings_file_from_game_path(game_path: &str) -> (r: String)
    ensures
        r@ == settings_file_spec(game_path@),
{
    let binaries = join_path(game_path, "Binaries");
    let settings = join_path(binaries.as_str(), "SETTINGS");
    join_path(settings.as_str(), "GCMODSETTINGS.MXML")
}

/// `<game>/GAMEDATA/MODS/<mod_name>`.
pub fn mod_folder_path(game_path: &str, mod_name: &str) -> (r: String)
    ensures
        r@ == mod_folder_spec(game_path@, mod_name@),
{
    let root = mods_root_from_game_path(game_path);
    join_path(root.as_str(), mod_name)
}

/// The old and new folder of a renamed mod inside the library copy of the
/// archive it came from: `<library>/<source_zip>_unpacked/<name>`.
pub fn library_rename_paths(library_dir: &str, source_zip: &str, old_name: &str, new_name: &str) -> (r: (
    String,
    String,
))
    ensures
        r.0@ == path_join(library_unpacked_spec(library_dir@, source_zip@), old_name@),
        r.1@ == path_join(library_unpacked_spec(library_dir@, source_zip@), new_name@),
{
    let folder = concat2(source_zip, "_unpacked");
    let unpacked = join_path(library_dir, folder.as_str());
    (join_path(unpacked.as_str(), old_name), join_path(unpacked.as_str(), new_name))
}

/// What syncing a rename into the library did.
#[derive(Debug, Clone, Copy, PartialEq, Eq)]
pub enum LibraryRenameSync {
    SourceMissing,
    TargetExists,
    Renamed,
}

/// The decision of syncing a rename into the library, from whether the old
/// and the new library folder exist: nothing to do without a source, a
/// refusal to overwrite an existing target, else a rename (`None` here).
pub fn library_rename_decision(old_exists: bool, new_exists: bool) -> (r: Option<LibraryRenameSync>)
    ensures
        !old_exists ==> r == Some(LibraryRenameSync::SourceMissing),
        old_exists && new_exists ==> r == Some(LibraryRenameSync::TargetExists),
        old_exists && !new_exists ==> r.is_none(),
{
    if !old_exists {
        Some(LibraryRenameSync::SourceMissing)
    } else if new_exists {
        Some(LibraryRenameSync::TargetExists)
    } else {
        None
    }
}

pub open spec fn missing_source_message() -> Seq<char> {
    "Original mod folder not found."@
}

pub open spec fn target_exists_message() -> Seq<char> {
    "A mod with the new name already exists."@
}

/// A rename needs the old folder to exist and the new one not to.
pub fn validate_rename_paths(old_exists: bool, new_exists: bool) -> (r: Result<(), String>)
    ensures
        !old_exists ==> (r matches Err(m) && m@ == missing_source_message()),
        old_exists && new_exists ==> (r matches Err(m) && m@ == target_exists_message()),
        old_exists && !new_exists ==> r is Ok,
{
    if !old_exists {
        Err("Original mod folder not found.".to_string())
    } else if new_exists {
        Err("A mod with the new name already exists.".to_string())
    } else {
        Ok(())
    }
}

pub open spec fn library_sync_failed_message(e: Seq<char>) -> Seq<char> {
    "Failed to sync rename to Library: "@ + e
}

/// What syncing a rename into the library gives once the old library folder
/// exists: `TargetExists` when the new one exists too; else the result of
/// renaming one to the other.
pub open spec fn library_sync_after_source<E, R>(
    new_path: Seq<char>,
    old_path: Seq<char>,
    path_exists: E,
    rename_path: R,
    r: Result<LibraryRenameSync, String>,
) -> bool
    where
        E: Fn(&str) -> bool,
        R: Fn(&str, &str) -> Result<(), String>,
{
    exists|b: &str, new_exists: bool|
        #![trigger call_ensures(path_exists, (b,), new_exists)]
        b@ == new_path && call_ensures(path_exists, (b,), new_exists) && (new_exists ==> r
            == Ok::<LibraryRenameSync, String>(LibraryRenameSync::TargetExists)) && (!new_exists
            ==> exists|c: &str, d: &str, out: Result<(), String>|
            #![trigger call_ensures(rename_path, (c, d), out)]
            c@ == old_path && d@ == new_path && call_ensures(rename_path, (c, d), out) && match out {
                Ok(()) => r == Ok::<LibraryRenameSync, String>(LibraryRenameSync::Renamed),
                Err(e) => r matches Err(m) && m@ == library_sync_failed_message(e@),
            })
}

/// Renames the mod's folder inside the library copy of its source archive
/// (`<library>/<source>_unpacked/<old>` to `.../<new>`): nothing when the old
/// folder is missing or the new one exists; a failed rename is an error.
pub fn sync_library_folder_rename<E, R>(
    library_dir: &str,
    source_zip: &str,
    old_name: &str,
    new_name: &str,
    path_exists: E,
    rename_path: R,
) -> (r: Result<LibraryRenameSync, String>)
    where
        E: Fn(&str) -> bool,
        R: Fn(&str, &str) -> Result<(), String>,
    requires
        forall|a: &str| call_requires(path_exists, (a,)),
        forall|a: &str, b: &str| call_requires(rename_path, (a, b)),
    ensures
        exists|a: &str, old_exists: bool|
            #![trigger call_ensures(path_exists, (a,), old_exists)]
            a@ == path_join(library_unpacked_spec(library_dir@, source_zip@), old_name@)
                && call_ensures(path_exists, (a,), old_exists) && (!old_exists ==> r
                == Ok::<LibraryRenameSync, String>(LibraryRenameSync::SourceMissing)) && (old_exists
                ==> library_sync_after_source(
                path_join(library_unpacked_spec(library_dir@, source_zip@), new_name@),
                path_join(library_unpacked_spec(library_dir@, source_zip@), old_name@),
                path_exists,
                rename_path,
                r,
            )),
{
    let (lib_old_path, lib_new_path) = library_rename_paths(library_dir, source_zip, old_name, new_name);
    let op = lib_old_path.as_str();
    let np = lib_new_path.as_str();
    let old_exists = path_exists(op);
    assert(call_ensures(path_exists, (op,), old_exists));
    if !old_exists {
        return Ok(LibraryRenameSync::SourceMissing);
    }
    let new_exists = path_exists(np);
    assert(call_ensures(path_exists, (np,), new_exists));
    if new_exists {
        return Ok(LibraryRenameSync::TargetExists);
    }
    let out = rename_path(op, np);
    assert(call_ensures(rename_path, (op, np), out));
    match out {
        Ok(()) => Ok(LibraryRenameSync::Renamed),
        Err(e) => Err(concat2("Failed to sync rename to Library: ", e.as_str())),
    }
}

pub open spec fn delete_folder_failed_message(mod_name: Seq<char>, e: Seq<char>) -> Seq<char> {
    "Failed to delete mod folder '"@ + mod_name + "': "@ + e
}

/// Removes the mod folder when it exists: `Ok(false)` when it does not,
/// `Ok(true)` once removed; a failed removal is an error naming the mod.
pub fn maybe_remove_mod_folder<E, D>(path: &str, mod_name: &str, path_exists: E, remove_dir_all: D) -> (r:
    Result<bool, String>)
    where
        E: Fn(&str) -> bool,
        D: Fn(&str) -> Result<(), String>,
    requires
        call_requires(path_exists, (path,)),
        call_requires(remove_dir_all, (path,)),
    ensures
        exists|present: bool|
            #![trigger call_ensures(path_exists, (path,), present)]
            call_ensures(path_exists, (path,), present) && (!present ==> r == Ok::<bool, String>(false))
                && (present ==> exists|out: Result<(), String>|
                #![trigger call_ensures(remove_dir_all, (path,), out)]
                call_ensures(remove_dir_all, (path,), out) && match out {
                    Ok(()) => r == Ok::<bool, String>(true),
                    Err(e) => r matches Err(m) && m@ == delete_folder_failed_message(mod_name@, e@),
                }),
{
    let present = path_exists(path);
    assert(call_ensures(path_exists, (path,), present));
    if !present {
        return Ok(false);
    }
    let out = remove_dir_all(path);
    assert(call_ensures(remove_dir_all, (path,), out));
    match out {
        Ok(()) => Ok(true),
        Err(e) => {
            let head = concat3("Failed to delete mod folder '", mod_name, "': ");
            Err(concat2(head.as_str(), e.as_str()))
        },
    }
}

} // verus!
