//! Getting an archive ready to install: its copy in the downloads folder,
//! the library folder it is unpacked into, and what an unpacked archive
//! offers to install.
use vstd::prelude::*;
use crate::paths::{file_name, file_name_spec, join_path, path_has_prefix, path_join, path_starts_with};
use crate::text::{append_str, concat2, owned};

verus! {

pub open spec fn library_folder_spec(archive_path: Seq<char>) -> Option<Seq<char>> {
    match file_name_spec(archive_path) {
        Some(name) => Some(name + "_unpacked"@),
        None => None,
    }
}

pub open spec fn invalid_archive_name_message() -> Seq<char> {
    "Invalid archive filename"@
}

/// `<archive file name>_unpacked`; fails for a path without a file name.
pub fn library_folder_name_for_archive(archive_path: &str) -> (r: Result<String, String>)
    ensures
        match library_folder_spec(archive_path@) {
            Some(n) => r matches Ok(s) && s@ == n,
            None => r matches Err(m) && m@ == invalid_archive_name_message(),
        },
{
    match file_name(archive_path) {
        Some(name) => Ok(concat2(name.as_str(), "_unpacked")),
        None => Err("Invalid archive filename".to_string()),
    }
}

pub open spec fn create_downloads_failed_message(dir: Seq<char>, e: Seq<char>) -> Seq<char> {
    "Failed to create downloads directory '"@ + dir + "': "@ + e
}

pub open spec fn copy_failed_message(from: Seq<char>, to: Seq<char>, e: Seq<char>) -> Seq<char> {
    "Failed to copy archive from '"@ + from + "' to '"@ + to + "': "@ + e
}

pub open spec fn invalid_filename_message() -> Seq<char> {
    "Invalid filename"@
}

/// Whether both paths could be made absolute and the archive's lies inside
/// the downloads folder's.
pub open spec fn inside_downloads<K: Fn(&str) -> Result<String, String>>(
    canonicalize: K,
    archive_path: &str,
    downloads_dir: &str,
    inside: bool,
) -> bool {
    exists|ca: Result<String, String>, cd: Result<String, String>|
        #![trigger call_ensures(canonicalize, (archive_path,), ca), call_ensures(canonicalize, (downloads_dir,), cd)]
        call_ensures(canonicalize, (archive_path,), ca) && call_ensures(canonicalize, (downloads_dir,), cd)
            && inside == match (ca, cd) {
            (Ok(a), Ok(d)) => path_has_prefix(a@, d@),
            _ => false,
        }
}

/// What copying gives once the downloads folder exists: an archive already
/// inside it stays where it is (`true`); else it is copied under its file
/// name into the folder (`false`), failing without a file name or when the
/// copy fails.
pub open spec fn copy_after_dir<K, F>(
    archive_path: &str,
    downloads_dir: &str,
    canonicalize: K,
    copy_file: F,
    r: Result<(String, bool), String>,
) -> bool
    where
        K: Fn(&str) -> Result<String, String>,
        F: Fn(&str, &str) -> Result<(), String>,
{
    exists|inside: bool|
        #![trigger inside_downloads(canonicalize, archive_path, downloads_dir, inside)]
        inside_downloads(canonicalize, archive_path, downloads_dir, inside) && if inside {
            r matches Ok(v) && v.0@ == archive_path@ && v.1
        } else {
            match file_name_spec(archive_path@) {
                None => r matches Err(m) && m@ == invalid_filename_message(),
                Some(name) => exists|t: &str, out: Result<(), String>|
                    #![trigger call_ensures(copy_file, (archive_path, t), out)]
                    t@ == path_join(downloads_dir@, name) && call_ensures(copy_file, (archive_path, t), out)
                        && match out {
                        Ok(()) => r matches Ok(v) && v.0@ == t@ && !v.1,
                        Err(e) => r matches Err(m) && m@ == copy_failed_message(archive_path@, t@, e@),
                    },
            }
        }
}

/// The downloads folder is probed and created when missing (its error ends
/// the copy), then `copy_after_dir` holds.
pub open spec fn copy_outcome<E, C, K, F>(
    archive_path: &str,
    downloads_dir: &str,
    path_exists: E,
    create_dir_all: C,
    canonicalize: K,
    copy_file: F,
    r: Result<(String, bool), String>,
) -> bool
    where
        E: Fn(&str) -> bool,
        C: Fn(&str) -> Result<(), String>,
        K: Fn(&str) -> Result<String, String>,
        F: Fn(&str, &str) -> Result<(), String>,
{
    exists|present: bool|
        #![trigger call_ensures(path_exists, (downloads_dir,), present)]
        call_ensures(path_exists, (downloads_dir,), present) && (present ==> copy_after_dir(
            archive_path,
            downloads_dir,
            canonicalize,
            copy_file,
            r,
        )) && (!present ==> exists|created: Result<(), String>|
            #![trigger call_ensures(create_dir_all, (downloads_dir,), created)]
            call_ensures(create_dir_all, (downloads_dir,), created) && match created {
                Err(e) => r matches Err(m) && m@ == create_downloads_failed_message(downloads_dir@, e@),
                Ok(()) => copy_after_dir(archive_path, downloads_dir, canonicalize, copy_file, r),
            })
}

/// Puts the archive into the downloads folder (creating the folder when
/// missing) and says where it is and whether it was there already.
pub fn copy_archive_to_downloads<E, C, K, F>(
    archive_path: &str,
    downloads_dir: &str,
    path_exists: E,
    create_dir_all: C,
    canonicalize: K,
    copy_file: F,
) -> (r: Result<(String, bool), String>)
    where
        E: Fn(&str) -> bool,
        C: Fn(&str) -> Result<(), String>,
        K: Fn(&str) -> Result<String, String>,
        F: Fn(&str, &str) -> Result<(), String>,
    requires
        call_requires(path_exists, (downloads_dir,)),
        call_requires(create_dir_all, (downloads_dir,)),
        call_requires(canonicalize, (archive_path,)),
        call_requires(canonicalize, (downloads_dir,)),
        forall|t: &str| call_requires(copy_file, (archive_path, t)),
    ensures
        copy_outcome(archive_path, downloads_dir, path_exists, create_dir_all, canonicalize, copy_file, r),
{
    let present = path_exists(downloads_dir);
    assert(call_ensures(path_exists, (downloads_dir,), present));
    if !present {
        let created = create_dir_all(downloads_dir);
        assert(call_ensures(create_dir_all, (downloads_dir,), created));
        if let Err(e) = created {
            let mut m = owned("Failed to create downloads directory '");
            append_str(&mut m, downloads_dir);
            append_str(&mut m, "': ");
            append_str(&mut m, e.as_str());
            return Err(m);
        }
    }
    let ca = canonicalize(archive_path);
    assert(call_ensures(canonicalize, (archive_path,), ca));
    let cd = canonicalize(downloads_dir);
    assert(call_ensures(canonicalize, (downloads_dir,), cd));
    let inside = match (&ca, &cd) {
        (Ok(a), Ok(d)) => path_starts_with(a.as_str(), d.as_str()),
        _ => false,
    };
    assert(inside_downloads(canonicalize, archive_path, downloads_dir, inside));
    if inside {
        return Ok((owned(archive_path), true));
    }
    let name = match file_name(archive_path) {
        None => {
            return Err("Invalid filename".to_string());
        },
        Some(n) => n,
    };
    let target_path = join_path(downloads_dir, name.as_str());
    let t = target_path.as_str();
    let out = copy_file(archive_path, t);
    assert(call_ensures(copy_file, (archive_path, t), out));
    match out {
        Ok(()) => Ok((target_path, false)),
        Err(e) => {
            let mut m = owned("Failed to copy archive from '");
            append_str(&mut m, archive_path);
            append_str(&mut m, "' to '");
            append_str(&mut m, t);
            append_str(&mut m, "': ");
            append_str(&mut m, e.as_str());
            Err(m)
        },
    }
}

pub open spec fn read_extracted_failed_message(dir: Seq<char>, e: Seq<char>) -> Seq<char> {
    "Failed to read extracted archive directory '"@ + dir + "': "@ + e
}

/// The folder is scanned for mod roots and listed; a listing error ends the
/// scan with an error naming the folder.
pub open spec fn scan_outcome<A, D>(
    library_mod_path: &str,
    scan_installable: A,
    list_dir_names: D,
    r: Result<(Vec<String>, Vec<String>), String>,
) -> bool
    where
        A: Fn(&str, &str) -> Vec<String>,
        D: Fn(&str) -> Result<Vec<String>, String>,
{
    exists|installable: Vec<String>, listed: Result<Vec<String>, String>|
        #![trigger call_ensures(scan_installable, (library_mod_path, library_mod_path), installable), call_ensures(list_dir_names, (library_mod_path,), listed)]
        call_ensures(scan_installable, (library_mod_path, library_mod_path), installable)
            && call_ensures(list_dir_names, (library_mod_path,), listed) && match listed {
            Ok(names) => r == Ok::<(Vec<String>, Vec<String>), String>((names, installable)),
            Err(e) => r matches Err(m) && m@ == read_extracted_failed_message(library_mod_path@, e@),
        }
}

/// What an unpacked archive offers: its top-level folder names and the mod
/// roots found under it (`scan_installable` from the folder itself). A
/// failure to list the folder is an error naming it.
pub fn scan_library_mod_path<A, D>(library_mod_path: &str, scan_installable: A, list_dir_names: D) -> (r:
    Result<(Vec<String>, Vec<String>), String>)
    where
        A: Fn(&str, &str) -> Vec<String>,
        D: Fn(&str) -> Result<Vec<String>, String>,
    requires
        call_requires(scan_installable, (library_mod_path, library_mod_path)),
        call_requires(list_dir_names, (library_mod_path,)),
    ensures
        scan_outcome(library_mod_path, scan_installable, list_dir_names, r),
{
    let installable = scan_installable(library_mod_path, library_mod_path);
    assert(call_ensures(scan_installable, (library_mod_path, library_mod_path), installable));
    let listed = list_dir_names(library_mod_path);
    assert(call_ensures(list_dir_names, (library_mod_path,), listed));
    match listed {
        Ok(names) => Ok((names, installable)),
        Err(e) => {
            let mut m = owned("Failed to read extracted archive directory '");
            append_str(&mut m, library_mod_path);
            append_str(&mut m, "': ");
            append_str(&mut m, e.as_str());
            Err(m)
        },
    }
}

} // verus!
