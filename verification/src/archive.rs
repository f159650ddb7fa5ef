//! Archive extraction: which extractor an archive goes to, the checks made
//! before extracting, the zip progress percentage and the loop that drives a
//! rar archive entry by entry.
use vstd::prelude::*;
use crate::paths::{extension, extension_spec, join_path, path_join};
use crate::text::{concat2, concat3, owned, str_eq, to_lowercase, unicode_lower};

verus! {

/// The archive formats that can be extracted.
#[derive(Debug, Clone, Copy, PartialEq, Eq, Structural)]
pub enum ArchiveKind {
    Zip,
    Rar,
    SevenZ,
}

/// The lower-cased extension of `archive_path`, empty when it has none.
pub open spec fn archive_extension(archive_path: Seq<char>) -> Seq<char> {
    match extension_spec(archive_path) {
        Some(e) => unicode_lower(e),
        None => unicode_lower(Seq::empty()),
    }
}

pub open spec fn unsupported_type_message(ext: Seq<char>) -> Seq<char> {
    "Unsupported file type: ."@ + ext
}

/// The archive kind of a lower-cased extension, or the error naming it.
pub open spec fn archive_kind_spec(ext: Seq<char>) -> Result<ArchiveKind, Seq<char>> {
    if ext == "zip"@ {
        Ok(ArchiveKind::Zip)
    } else if ext == "rar"@ {
        Ok(ArchiveKind::Rar)
    } else if ext == "7z"@ {
        Ok(ArchiveKind::SevenZ)
    } else {
        Err(unsupported_type_message(ext))
    }
}

/// The kind of an archive by its extension, compared case-insensitively:
/// `zip`, `rar` or `7z`; any other extension is refused.
pub fn detect_archive_kind(archive_path: &str) -> (r: Result<ArchiveKind, String>)
    ensures
        match archive_kind_spec(archive_extension(archive_path@)) {
            Ok(k) => r == Ok::<ArchiveKind, String>(k),
            Err(m) => r matches Err(e) && e@ == m,
        },
{
    let ext = match extension(archive_path) {
        Some(e) => e,
        None => String::new(),
    };
    let lower = to_lowercase(ext.as_str());
    proof {
        reveal_strlit("zip");
        reveal_strlit("rar");
        reveal_strlit("7z");
    }
    if str_eq(lower.as_str(), "zip") {
        Ok(ArchiveKind::Zip)
    } else if str_eq(lower.as_str(), "rar") {
        Ok(ArchiveKind::Rar)
    } else if str_eq(lower.as_str(), "7z") {
        Ok(ArchiveKind::SevenZ)
    } else {
        Err(concat2("Unsupported file type: .", lower.as_str()))
    }
}

/// The percentage reported once entry `i` of `total` zip entries is done.
pub fn zip_progress_pct(i: usize, total: usize) -> (r: u64)
    requires
        i < total,
        (i + 1) * 100 <= u64::MAX,
    ensures
        r == ((i + 1) * 100) / (total as int),
{
    let done: u64 = i as u64 + 1;
    (done * 100) / (total as u64)
}

pub open spec fn create_dest_failed_message(e: Seq<char>) -> Seq<char> {
    "Could not create dest dir: "@ + e
}

pub open spec fn invalid_archive_path_message(path: Seq<char>, e: Seq<char>) -> Seq<char> {
    "Invalid archive path '"@ + path + "': "@ + e
}

/// What extracting gives once the destination exists: the archive path is
/// made absolute (its error ends the extraction), its kind decided (an
/// unsupported kind ends it), and the extractor of that kind run on the
/// absolute path and the destination.
pub open spec fn extract_after_destination<K, Z, R, S>(
    archive_path: Seq<char>,
    destination: &str,
    canonicalize: K,
    extract_zip: Z,
    extract_rar: R,
    extract_7z: S,
    r: Result<(), String>,
) -> bool
    where
        K: Fn(&str) -> Result<String, String>,
        Z: FnOnce(&str, &str) -> Result<(), String>,
        R: FnOnce(&str, &str) -> Result<(), String>,
        S: FnOnce(&str, &str) -> Result<(), String>,
{
    exists|a: &str, canon: Result<String, String>|
        #![trigger call_ensures(canonicalize, (a,), canon)]
        a@ == archive_path && call_ensures(canonicalize, (a,), canon) && match canon {
            Err(e) => r matches Err(m) && m@ == invalid_archive_path_message(archive_path, e@),
            Ok(abs) => match archive_kind_spec(archive_extension(archive_path)) {
                Err(msg) => r matches Err(m) && m@ == msg,
                Ok(ArchiveKind::Zip) => exists|p: &str|
                    #![trigger call_ensures(extract_zip, (p, destination), r)]
                    p@ == abs@ && call_ensures(extract_zip, (p, destination), r),
                Ok(ArchiveKind::Rar) => exists|p: &str|
                    #![trigger call_ensures(extract_rar, (p, destination), r)]
                    p@ == abs@ && call_ensures(extract_rar, (p, destination), r),
                Ok(ArchiveKind::SevenZ) => exists|p: &str|
                    #![trigger call_ensures(extract_7z, (p, destination), r)]
                    p@ == abs@ && call_ensures(extract_7z, (p, destination), r),
            },
        }
}

/// Extracts an archive into `destination`: creates the destination when it
/// is missing, makes the archive path absolute, decides the kind by the
/// extension and runs that kind's extractor. The first failing step ends the
/// extraction with its error.
pub fn extract_archive<E, C, K, Z, R, S>(
    archive_path: &str,
    destination: &str,
    path_exists: E,
    create_dir_all: C,
    canonicalize: K,
    extract_zip: Z,
    extract_rar: R,
    extract_7z: S,
) -> (r: Result<(), String>)
    where
        E: Fn(&str) -> bool,
        C: Fn(&str) -> Result<(), String>,
        K: Fn(&str) -> Result<String, String>,
        Z: FnOnce(&str, &str) -> Result<(), String>,
        R: FnOnce(&str, &str) -> Result<(), String>,
        S: FnOnce(&str, &str) -> Result<(), String>,
    requires
        call_requires(path_exists, (destination,)),
        call_requires(create_dir_all, (destination,)),
        call_requires(canonicalize, (archive_path,)),
        forall|a: &str| call_requires(extract_zip, (a, destination)),
        forall|a: &str| call_requires(extract_rar, (a, destination)),
        forall|a: &str| call_requires(extract_7z, (a, destination)),
    ensures
        exists|present: bool|
            #![trigger call_ensures(path_exists, (destination,), present)]
            call_ensures(path_exists, (destination,), present) && (present ==> extract_after_destination(
                archive_path@,
                destination,
                canonicalize,
                extract_zip,
                extract_rar,
                extract_7z,
                r,
            )) && (!present ==> exists|created: Result<(), String>|
                #![trigger call_ensures(create_dir_all, (destination,), created)]
                call_ensures(create_dir_all, (destination,), created) && match created {
                    Err(e) => r matches Err(m) && m@ == create_dest_failed_message(e@),
                    Ok(()) => extract_after_destination(
                        archive_path@,
                        destination,
                        canonicalize,
                        extract_zip,
                        extract_rar,
                        extract_7z,
                        r,
                    ),
                }),
{
    let present = path_exists(destination);
    assert(call_ensures(path_exists, (destination,), present));
    if !present {
        let created = create_dir_all(destination);
        assert(call_ensures(create_dir_all, (destination,), created));
        if let Err(e) = created {
            return Err(concat2("Could not create dest dir: ", e.as_str()));
        }
    }
    let canon = canonicalize(archive_path);
    assert(call_ensures(canonicalize, (archive_path,), canon));
    let abs_archive_path = match canon {
        Err(e) => {
            let head = concat3("Invalid archive path '", archive_path, "': ");
            return Err(concat2(head.as_str(), e.as_str()));
        },
        Ok(p) => p,
    };
    let kind = match detect_archive_kind(archive_path) {
        Err(e) => {
            return Err(e);
        },
        Ok(k) => k,
    };
    let p = abs_archive_path.as_str();
    let r = match kind {
        ArchiveKind::Zip => {
            let r = extract_zip(p, destination);
            assert(call_ensures(extract_zip, (p, destination), r));
            r
        },
        ArchiveKind::Rar => {
            let r = extract_rar(p, destination);
            assert(call_ensures(extract_rar, (p, destination), r));
            r
        },
        ArchiveKind::SevenZ => {
            let r = extract_7z(p, destination);
            assert(call_ensures(extract_7z, (p, destination), r));
            r
        },
    };
    r
}

/// What extracting one zip entry does: an entry without a safe enclosed
/// path is skipped; otherwise the folder or file at
/// `<destination>/<enclosed path>` is made, and the percentage is reported.
#[derive(Debug, Clone, PartialEq, Eq)]
pub enum ZipEntryAction {
    Skip,
    CreateFolder { path: String, pct: u64 },
    WriteFile { path: String, pct: u64 },
}

/// The entry's name marks a folder: it ends with `/`.
pub open spec fn names_folder(name: Option<Seq<char>>) -> bool {
    match name {
        Some(n) => n.len() > 0 && n.last() == '/',
        None => false,
    }
}

/// Decides what to do with entry `i` of `total` of a zip archive from its
/// safe enclosed path (`None` when it has none) and its name (`None` when it
/// cannot be read): skip it, or create the folder or write the file under
/// `destination` and report `((i + 1) * 100) / total` percent.
pub fn zip_entry_action(
    destination: &str,
    i: usize,
    total: usize,
    enclosed_name: Option<String>,
    name: Option<String>,
) -> (r: ZipEntryAction)
    requires
        i < total,
        (i + 1) * 100 <= u64::MAX,
    ensures
        match enclosed_name {
            None => r is Skip,
            Some(rel) => {
                let path = path_join(destination@, rel@);
                let pct = ((i + 1) * 100) / (total as int);
                if names_folder(match name {
                    Some(n) => Some(n@),
                    None => None,
                }) {
                    r matches ZipEntryAction::CreateFolder { path: p, pct: q } && p@ == path && q == pct
                } else {
                    r matches ZipEntryAction::WriteFile { path: p, pct: q } && p@ == path && q == pct
                }
            },
        },
{
    let rel = match enclosed_name {
        None => {
            return ZipEntryAction::Skip;
        },
        Some(r) => r,
    };
    let path = join_path(destination, rel.as_str());
    let pct = zip_progress_pct(i, total);
    let is_folder = match &name {
        Some(n) => {
            let len = n.unicode_len();
            len > 0 && n.get_char(len - 1) == '/'
        },
        None => false,
    };
    if is_folder {
        ZipEntryAction::CreateFolder { path, pct }
    } else {
        ZipEntryAction::WriteFile { path, pct }
    }
}

pub open spec fn too_many_entries_message() -> Seq<char> {
    "Too many archive entries."@
}

/// Drives a rar archive: calls `step` until it reports no further entry
/// (`Ok(false)`) or fails, reporting progress 0 after each processed entry.
/// The result is `Ok` only when a call of `step` gave `Ok(false)`; an error
/// is the error a call of `step` gave, or `Too many archive entries.` once
/// `step` has given `Ok(true)` for `u64::MAX` entries, which no archive
/// reaches. A closure call is known here by what it may return from the
/// state it was called in, which does not record how many calls were made,
/// so the count of calls before that last error is not part of the contract.
pub fn run_rar_processing_loop<S, P>(step: &mut S, on_progress: &mut P) -> (r: Result<(), String>)
    where
        S: FnMut() -> Result<bool, String>,
        P: FnMut(u64),
    requires
        call_requires(*old(step), ()),
        forall|p: P, x: u64| call_requires(p, (x,)),
    ensures
        r is Ok ==> call_ensures(*old(step), (), Ok::<bool, String>(false)),
        r matches Err(e) ==> call_ensures(*old(step), (), Err::<bool, String>(e)) || (e@
            == too_many_entries_message() && call_ensures(*old(step), (), Ok::<bool, String>(true))),
{
    let mut count: u64 = 0;
    loop
        invariant
            *step == *old(step),
            call_requires(*old(step), ()),
            forall|p: P, x: u64| call_requires(p, (x,)),
            count > 0 ==> call_ensures(*old(step), (), Ok::<bool, String>(true)),
        decreases u64::MAX - count,
    {
        let out = step();
        assert(call_ensures(*old(step), (), out));
        match out {
            Err(e) => {
                return Err(e);
            },
            Ok(false) => {
                return Ok(());
            },
            Ok(true) => {
                on_progress(0);
            },
        }
        if count == u64::MAX {
            return Err(owned("Too many archive entries."));
        }
        count = count + 1;
    }
}

} // verus!
