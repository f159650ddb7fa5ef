//! The pure part of installing from an archive: where the archive is
//! unpacked, how an input path or `file://` URL becomes a path, and how a
//! conflict is handed to the resolver.
use vstd::prelude::*;
use crate::command_ops::{mods_root_from_game_path, mods_root_spec};
use crate::paths::{join_path, path_join};
use crate::install_archive_flow::{
    copy_archive_to_downloads, copy_outcome, invalid_archive_name_message,
    library_folder_name_for_archive, library_folder_spec, scan_library_mod_path, scan_outcome,
};
use crate::text::{owned, str_eq};

verus! {

/// The library folder an archive is unpacked into, and the archive's path.
#[derive(Debug, Clone, PartialEq, Eq)]
pub struct InstallArchiveContext {
    pub final_archive_path_str: String,
    pub library_id: String,
    pub library_mod_path: String,
}

/// The unpack location of `final_archive_path` inside `library_dir`.
pub fn build_install_archive_context(final_archive_path: &str, library_dir: &str) -> (r: Result<
    InstallArchiveContext,
    String,
>)
    ensures
        match library_folder_spec(final_archive_path@) {
            Some(n) => r matches Ok(c) && c.final_archive_path_str@ == final_archive_path@
                && c.library_id@ == n && c.library_mod_path@ == path_join(library_dir@, n),
            None => r matches Err(m) && m@ == invalid_archive_name_message(),
        },
{
    let final_archive_path_str = owned(final_archive_path);
    let library_id = library_folder_name_for_archive(final_archive_path)?;
    let library_mod_path = join_path(library_dir, library_id.as_str());
    Ok(InstallArchiveContext { final_archive_path_str, library_id, library_mod_path })
}

pub open spec fn missing_game_path_message() -> Seq<char> {
    "Could not find game path."@
}

/// Without a game path resolving fails with `Could not find game path.`;
/// else its result is what `resolve_conflict_in_paths` gives for the game's
/// mods folder, both names, the staged path and the choice.
pub open spec fn resolve_outcome<G, F>(
    find_game_path: G,
    resolve_conflict_in_paths: F,
    new_mod_name: &str,
    old_mod_folder_name: &str,
    temp_mod_path: Seq<char>,
    replace: bool,
    r: Result<(), String>,
) -> bool
    where
        G: FnOnce() -> Option<String>,
        F: FnOnce(&str, &str, &str, &str, bool) -> Result<(), String>,
{
    exists|g: Option<String>|
        #![trigger call_ensures(find_game_path, (), g)]
        call_ensures(find_game_path, (), g) && match g {
            None => r matches Err(m) && m@ == missing_game_path_message(),
            Some(game) => exists|mods: &str, temp: &str|
                #![trigger call_ensures(resolve_conflict_in_paths, (mods, new_mod_name, old_mod_folder_name, temp, replace), r)]
                mods@ == mods_root_spec(game@) && temp@ == temp_mod_path && call_ensures(
                    resolve_conflict_in_paths,
                    (mods, new_mod_name, old_mod_folder_name, temp, replace),
                    r,
                ),
        }
}

/// Resolves a staged conflict inside the game's mods folder: fails when the
/// game path is unknown, else hands `<game>/GAMEDATA/MODS`, the names, the
/// staged path and the choice to `resolve_conflict_in_paths` and returns its
/// result.
pub fn resolve_conflict_with<G, F>(
    find_game_path: G,
    new_mod_name: &str,
    old_mod_folder_name: &str,
    temp_mod_path_str: &str,
    replace: bool,
    resolve_conflict_in_paths: F,
) -> (r: Result<(), String>)
    where
        G: FnOnce() -> Option<String>,
        F: FnOnce(&str, &str, &str, &str, bool) -> Result<(), String>,
    requires
        call_requires(find_game_path, ()),
        forall|a: &str, b: &str, c: &str, d: &str, e: bool|
            call_requires(resolve_conflict_in_paths, (a, b, c, d, e)),
    ensures
        resolve_outcome(
            find_game_path,
            resolve_conflict_in_paths,
            new_mod_name,
            old_mod_folder_name,
            temp_mod_path_str@,
            replace,
            r,
        ),
{
    let found = find_game_path();
    match found {
        None => Err("Could not find game path.".to_string()),
        Some(game_path) => {
            let mods_path = mods_root_from_game_path(game_path.as_str());
            let temp_mod_path = owned(temp_mod_path_str);
            let mods = mods_path.as_str();
            let temp = temp_mod_path.as_str();
            let r = resolve_conflict_in_paths(mods, new_mod_name, old_mod_folder_name, temp, replace);
            assert(call_ensures(
                resolve_conflict_in_paths,
                (mods, new_mod_name, old_mod_folder_name, temp, replace),
                r,
            ));
            r
        },
    }
}

#[verifier::external_type_specification]
#[verifier::external_body]
pub struct ExUrl(url::Url);

/// What `url::Url::parse` gives for `s`: the URL, or `None` (the error)
/// when `s` is not one.
pub uninterp spec fn url_parse(s: Seq<char>) -> Option<url::Url>;

/// What `Url::scheme` gives for `u`.
pub uninterp spec fn url_scheme(u: url::Url) -> Seq<char>;

/// What `Url::to_file_path` gives for `u`, as text: the local path, or
/// `None` (the error) when the URL names none.
pub uninterp spec fn url_file_path(u: url::Url) -> Option<Seq<char>>;

/// Calls `url::Url::parse`. The URL grammar is not restated: the result is
/// named `url_parse`.
#[verifier::external_body]
fn parse_url(s: &str) -> (r: Option<url::Url>)
    ensures
        r == url_parse(s@),
{
    match url::Url::parse(s) {
        Ok(u) => Some(u),
        Err(_) => None,
    }
}

/// Calls `Url::scheme`; the result is named `url_scheme`.
#[verifier::external_body]
fn scheme_of_url(u: &url::Url) -> (r: String)
    ensures
        r@ == url_scheme(*u),
{
    u.scheme().to_string()
}

/// Calls `Url::to_file_path` and takes the path as text with
/// `to_string_lossy` (a path that is not UTF-8 has its invalid bytes
/// replaced). The decoding is not restated: the result is named
/// `url_file_path`.
#[verifier::external_body]
fn file_path_of_url(u: &url::Url) -> (r: Option<String>)
    ensures
        match r {
            Some(x) => url_file_path(*u) == Some(x@),
            None => url_file_path(*u).is_none(),
        },
{
    match u.to_file_path() {
        Ok(p) => Some(p.to_string_lossy().into_owned()),
        Err(_) => None,
    }
}

/// The path an install input names: a `file://` URL that converts to a
/// local path gives that path; anything else is taken as a path as it is.
pub open spec fn archive_path_spec(s: Seq<char>) -> Seq<char> {
    match url_parse(s) {
        Some(u) => if url_scheme(u) == "file"@ && url_file_path(u).is_some() {
            url_file_path(u).unwrap()
        } else {
            s
        },
        None => s,
    }
}

/// The archive path named by an install input (a path or a `file://` URL).
pub fn archive_path_from_input(archive_path_str: &str) -> (r: String)
    ensures
        r@ == archive_path_spec(archive_path_str@),
{
    if let Some(url) = parse_url(archive_path_str) {
        let scheme = scheme_of_url(&url);
        if str_eq(scheme.as_str(), "file") {
            if let Some(path) = file_path_of_url(&url) {
                return path;
            }
        }
    }
    owned(archive_path_str)
}

/// Puts the archive into the downloads folder and gives its path there.
pub fn copy_archive_to_downloads_blocking<E, C, K, F>(
    archive_path: &str,
    downloads_dir: &str,
    path_exists: E,
    create_dir_all: C,
    canonicalize: K,
    copy_file: F,
) -> (r: Result<String, String>)
    where
        E: Fn(&str) -> bool,
        C: Fn(&str) -> Result<(), String>,
        K: Fn(&str) -> Result<String, String>,
        F: Fn(&str, &str) -> Result<(), String>,
    requires
        call_requires(path_exists, (downloads_dir,)),
        call_requires(create_dir_all, (downloads_dir,)),
        call_requires(canonicalize, (archive_path,)),
        call_requires(canonicalize, (downloads_dir,)),
        forall|t: &str| call_requires(copy_file, (archive_path, t)),
    ensures
        exists|full: Result<(String, bool), String>|
            #![trigger copy_outcome(archive_path, downloads_dir, path_exists, create_dir_all, canonicalize, copy_file, full)]
            copy_outcome(archive_path, downloads_dir, path_exists, create_dir_all, canonicalize, copy_file, full)
                && match full {
                Ok(v) => r == Ok::<String, String>(v.0),
                Err(e) => r == Err::<String, String>(e),
            },
{
    let full = copy_archive_to_downloads(
        archive_path,
        downloads_dir,
        path_exists,
        create_dir_all,
        canonicalize,
        copy_file,
    );
    match full {
        Ok((p, _)) => Ok(p),
        Err(e) => Err(e),
    }
}

/// Extracts the archive into the library folder unless that folder exists.
pub fn extract_archive_if_needed<E, X>(
    archive_path: &str,
    library_mod_path: &str,
    path_exists: E,
    extract_archive: X,
) -> (r: Result<(), String>)
    where
        E: Fn(&str) -> bool,
        X: FnOnce(&str, &str) -> Result<(), String>,
    requires
        call_requires(path_exists, (library_mod_path,)),
        call_requires(extract_archive, (archive_path, library_mod_path)),
    ensures
        exists|present: bool|
            #![trigger call_ensures(path_exists, (library_mod_path,), present)]
            call_ensures(path_exists, (library_mod_path,), present) && (present ==> r is Ok) && (!present
                ==> call_ensures(extract_archive, (archive_path, library_mod_path), r)),
{
    let present = path_exists(library_mod_path);
    assert(call_ensures(path_exists, (library_mod_path,), present));
    if present {
        return Ok(());
    }
    extract_archive(archive_path, library_mod_path)
}

/// What the unpacked archive offers: see `scan_library_mod_path`.
pub fn scan_library_mod_path_blocking<A, D>(library_mod_path: &str, scan_installable: A, list_dir_names: D) -> (r:
    Result<(Vec<String>, Vec<String>), String>)
    where
        A: Fn(&str, &str) -> Vec<String>,
        D: Fn(&str) -> Result<Vec<String>, String>,
    requires
        call_requires(scan_installable, (library_mod_path, library_mod_path)),
        call_requires(list_dir_names, (library_mod_path,)),
    ensures
        scan_outcome(library_mod_path, scan_installable, list_dir_names, r),
{
    scan_library_mod_path(library_mod_path, scan_installable, list_dir_names)
}

} // verus!
