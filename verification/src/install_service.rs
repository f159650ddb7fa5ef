//! The install service: the mod list shown to the user (cleaning the
//! settings file of mods whose folder is gone) and finalising an install
//! from an unpacked archive in the library.
use vstd::prelude::*;
use vstd::string::StringSliceAdditionalSpecFns;
use vstd::utf8::encode_utf8;
use crate::command_logic::{system_time_now, unix_millis_or_zero};
use crate::command_flow::{debug_quoted, debug_text, path_debug_quoted, path_debug_text, logged, no_game_installation_message};
use crate::command_ops::{mods_root_from_game_path, mods_root_spec, settings_file_from_game_path, settings_file_spec};
use crate::install_rendering::{build_mods_to_render, clean_orphaned_entries, cleaned_orphans, rendered};
use crate::install_execution::{apply_actions, apply_planned_install_actions, collect_installed_mods_by_id, collect_outcome, conflicts_view, successes_view, table_view, ApplyView};
use crate::install_finalize_flow::{build_deploy_candidates_with, candidate_of, conflict_staging_path, conflict_staging_spec, is_scan_all_selection};
use crate::install_planning::{plan_install_actions, planned_action, DeployCandidate, PlannedInstallAction};
use crate::install_scan::{build_deploy_ops, build_ops_spec, item_source, op_views, select_items_to_process, SourceProbe};
use crate::models::{InstallationAnalysis, ModInfo, ModRenderData, SettingsData};
use crate::paths::{join_path, path_join};
use crate::text::{append_str, concat2, decimal, owned, str_eq, usize_to_string};

verus! {

#[verifier::external_type_specification]
#[verifier::external_body]
pub struct ExIoError(std::io::Error);

/// Calls `to_string` on an `io::Error` (its `Display` text). That text comes
/// from the error kind or the operating system's message, so nothing is
/// claimed of it.
#[verifier::external_body]
pub fn io_error_to_string(error: std::io::Error) -> String {
    error.to_string()
}

/// `Could not find game installation path.`
pub fn missing_game_installation_path_error() -> (r: String)
    ensures
        r@ == no_game_installation_message(),
{
    "Could not find game installation path.".to_string()
}

pub open spec fn missing_game_path_message() -> Seq<char> {
    "Could not find game path."@
}

/// `Could not find game path.`
pub fn missing_game_path_error() -> (r: String)
    ensures
        r@ == missing_game_path_message(),
{
    "Could not find game path.".to_string()
}

/// `f(p)` can give `out` for a `p` with text `path`.
pub open spec fn made_dir<C: Fn(&str) -> Result<(), std::io::Error>>(
    f: C,
    path: Seq<char>,
    out: Result<(), std::io::Error>,
) -> bool {
    exists|p: &str| #![trigger call_ensures(f, (p,), out)] p@ == path && call_ensures(f, (p,), out)
}

/// Creates `<root>/staging` and gives its path; a failure to create it is an
/// error.
pub fn create_staging_dir<C>(root: &str, create_dir_all: C) -> (r: Result<String, String>)
    where
        C: Fn(&str) -> Result<(), std::io::Error>,
    requires
        forall|p: &str| call_requires(create_dir_all, (p,)),
    ensures
        exists|out: Result<(), std::io::Error>|
            #![trigger made_dir(create_dir_all, path_join(root@, "staging"@), out)]
            made_dir(create_dir_all, path_join(root@, "staging"@), out) && (out is Ok <==> r is Ok)
                && (r matches Ok(s) ==> s@ == path_join(root@, "staging"@)),
{
    let staging = join_path(root, "staging");
    let p = staging.as_str();
    let out = create_dir_all(p);
    assert(call_ensures(create_dir_all, (p,), out));
    assert(made_dir(create_dir_all, path_join(root@, "staging"@), out));
    match out {
        Ok(()) => Ok(staging),
        Err(e) => Err(io_error_to_string(e)),
    }
}

/// What getting the staging folder gives: the app root's error, or the
/// outcome of creating `<root>/staging`.
pub open spec fn staging_outcome<P, C>(get_pulsar_root: P, create_dir_all: C, r: Result<String, String>) -> bool
    where
        P: FnOnce() -> Result<String, String>,
        C: Fn(&str) -> Result<(), std::io::Error>,
{
    exists|root: Result<String, String>|
        #![trigger call_ensures(get_pulsar_root, (), root)]
        call_ensures(get_pulsar_root, (), root) && match root {
            Err(e) => r == Err::<String, String>(e),
            Ok(root) => exists|out: Result<(), std::io::Error>|
                #![trigger made_dir(create_dir_all, path_join(root@, "staging"@), out)]
                made_dir(create_dir_all, path_join(root@, "staging"@), out) && (out is Ok <==> r is Ok)
                    && (r matches Ok(s) ==> s@ == path_join(root@, "staging"@)),
        }
}

/// The staging folder inside the app's root folder, created when missing.
pub fn get_staging_dir_with<P, C>(get_pulsar_root: P, create_dir_all: C) -> (r: Result<String, String>)
    where
        P: FnOnce() -> Result<String, String>,
        C: Fn(&str) -> Result<(), std::io::Error>,
    requires
        call_requires(get_pulsar_root, ()),
        forall|p: &str| call_requires(create_dir_all, (p,)),
    ensures
        staging_outcome(get_pulsar_root, create_dir_all, r),
{
    let root = get_pulsar_root();
    match root {
        Err(e) => Err(e),
        Ok(root) => create_staging_dir(root.as_str(), create_dir_all),
    }
}

pub open spec fn read_attempt_message(path: Seq<char>) -> Seq<char> {
    "Attempting to read GCMODSETTINGS.MXML at: "@ + path
}

pub open spec fn read_ok_message(content: Seq<char>) -> Seq<char> {
    "Read GCMODSETTINGS.MXML successfully. Content length: "@ + decimal(
        (encode_utf8(content).len() as usize) as nat,
    ) + " bytes"@
}

pub open spec fn read_failed_message(e: Seq<char>) -> Seq<char> {
    "Failed to read GCMODSETTINGS.MXML: "@ + e
}

/// What reading the settings file gives, with its log lines.
pub open spec fn read_settings_outcome<R, L>(
    settings_file_path: Seq<char>,
    read_to_string: R,
    log: L,
    r: Result<String, String>,
) -> bool
    where
        R: Fn(&str) -> Result<String, String>,
        L: Fn(&str, &str),
{
    &&& logged(log, "DEBUG"@, read_attempt_message(settings_file_path))
    &&& exists|p: &str, content: Result<String, String>|
        #![trigger call_ensures(read_to_string, (p,), content)]
        p@ == settings_file_path && call_ensures(read_to_string, (p,), content) && match content {
            Ok(c) => r == Ok::<String, String>(c) && logged(log, "DEBUG"@, read_ok_message(c@)),
            Err(e) => r matches Err(m) && m@ == read_failed_message(e@) && logged(
                log,
                "ERROR"@,
                read_failed_message(e@),
            ),
        }
}

/// Reads the settings file, logging the attempt and its outcome.
pub fn read_settings_xml<R, L>(settings_file_path: &str, read_to_string: R, log: L) -> (r: Result<
    String,
    String,
>)
    where
        R: Fn(&str) -> Result<String, String>,
        L: Fn(&str, &str),
    requires
        call_requires(read_to_string, (settings_file_path,)),
        forall|a: &str, b: &str| call_requires(log, (a, b)),
    ensures
        read_settings_outcome(settings_file_path@, read_to_string, log, r),
{
    let debug = "DEBUG";
    let attempt = concat2("Attempting to read GCMODSETTINGS.MXML at: ", settings_file_path);
    let am = attempt.as_str();
    log(debug, am);
    assert(call_ensures(log, (debug, am), ()));
    let content = read_to_string(settings_file_path);
    assert(call_ensures(read_to_string, (settings_file_path,), content));
    match content {
        Ok(c) => {
            let len = c.as_str().len();
            let digits = usize_to_string(len);
            let mut m = owned("Read GCMODSETTINGS.MXML successfully. Content length: ");
            append_str(&mut m, digits.as_str());
            append_str(&mut m, " bytes");
            let mm = m.as_str();
            log(debug, mm);
            assert(call_ensures(log, (debug, mm), ()));
            Ok(c)
        },
        Err(e) => {
            let err = concat2("Failed to read GCMODSETTINGS.MXML: ", e.as_str());
            let level = "ERROR";
            let em = err.as_str();
            log(level, em);
            assert(call_ensures(log, (level, em), ()));
            Err(err)
        },
    }
}

pub open spec fn parse_failed_message(e: Seq<char>) -> Seq<char> {
    "Failed to parse GCMODSETTINGS.MXML: "@ + e
}

/// What parsing the settings text gives, with its log lines.
pub open spec fn parse_settings_outcome<Ps, L>(
    xml_content: Seq<char>,
    parse_settings: Ps,
    log: L,
    r: Result<SettingsData, String>,
) -> bool
    where
        Ps: Fn(&str) -> Result<SettingsData, String>,
        L: Fn(&str, &str),
{
    &&& logged(log, "DEBUG"@, "Parsing GCMODSETTINGS.MXML..."@)
    &&& exists|p: &str, parsed: Result<SettingsData, String>|
        #![trigger call_ensures(parse_settings, (p,), parsed)]
        p@ == xml_content && call_ensures(parse_settings, (p,), parsed) && match parsed {
            Ok(root) => r == Ok::<SettingsData, String>(root) && logged(
                log,
                "DEBUG"@,
                "Parsed GCMODSETTINGS.MXML successfully."@,
            ),
            Err(e) => r matches Err(m) && m@ == parse_failed_message(e@) && logged(
                log,
                "ERROR"@,
                parse_failed_message(e@),
            ),
        }
}

/// Parses the settings text, logging the attempt and its outcome.
pub fn parse_settings_xml<Ps, L>(xml_content: &str, parse_settings: Ps, log: L) -> (r: Result<
    SettingsData,
    String,
>)
    where
        Ps: Fn(&str) -> Result<SettingsData, String>,
        L: Fn(&str, &str),
    requires
        call_requires(parse_settings, (xml_content,)),
        forall|a: &str, b: &str| call_requires(log, (a, b)),
    ensures
        parse_settings_outcome(xml_content@, parse_settings, log, r),
{
    let debug = "DEBUG";
    let parsing = "Parsing GCMODSETTINGS.MXML...";
    log(debug, parsing);
    assert(call_ensures(log, (debug, parsing), ()));
    let parsed = parse_settings(xml_content);
    assert(call_ensures(parse_settings, (xml_content,), parsed));
    match parsed {
        Ok(root) => {
            let done = "Parsed GCMODSETTINGS.MXML successfully.";
            log(debug, done);
            assert(call_ensures(log, (debug, done), ()));
            Ok(root)
        },
        Err(e) => {
            let err = concat2("Failed to parse GCMODSETTINGS.MXML: ", e.as_str());
            let level = "ERROR";
            let em = err.as_str();
            log(level, em);
            assert(call_ensures(log, (level, em), ()));
            Err(err)
        },
    }
}

pub open spec fn settings_missing_message(path: Seq<char>) -> Seq<char> {
    "GCMODSETTINGS.MXML not found at: "@ + path
}

pub open spec fn cleaned_message() -> Seq<char> {
    "Cleaned orphaned mods from GCMODSETTINGS.MXML"@
}

/// What the mod list gives once the settings file is known to exist: the
/// real folders are read, the settings read and parsed (their errors end
/// it), orphaned entries cleaned (and, if any, the file saved, a failed save
/// ignored, and the cleaning logged), and the rows rendered.
pub open spec fn mods_after_settings<Rf, Rd, Ps, W, I, L>(
    mods_path: Seq<char>,
    settings_file_path: Seq<char>,
    read_real_folders: Rf,
    read_to_string: Rd,
    parse_settings: Ps,
    save_settings_file: W,
    read_mod_info: I,
    log: L,
    r: Result<Vec<ModRenderData>, String>,
) -> bool
    where
        Rf: Fn(&str) -> (Vec<(String, String)>, Vec<String>),
        Rd: Fn(&str) -> Result<String, String>,
        Ps: Fn(&str) -> Result<SettingsData, String>,
        W: Fn(&str, &SettingsData) -> Result<(), String>,
        I: Fn(&str) -> Option<ModInfo>,
        L: Fn(&str, &str),
{
    exists|m: &str, folders: (Vec<(String, String)>, Vec<String>)|
        #![trigger call_ensures(read_real_folders, (m,), folders)]
        m@ == mods_path && call_ensures(read_real_folders, (m,), folders) && exists|
            content: Result<String, String>,
        |
            #![trigger read_settings_outcome(settings_file_path, read_to_string, &log, content)]
            read_settings_outcome(settings_file_path, read_to_string, &log, content) && match content {
                Err(e) => r == Err::<Vec<ModRenderData>, String>(e),
                Ok(xml) => exists|parsed: Result<SettingsData, String>|
                    #![trigger parse_settings_outcome(xml@, parse_settings, &log, parsed)]
                    parse_settings_outcome(xml@, parse_settings, &log, parsed) && match parsed {
                        Err(e) => r == Err::<Vec<ModRenderData>, String>(e),
                        Ok(root) => exists|dirty: bool, cleaned: SettingsData|
                            #![trigger cleaned_orphans(root, folders.1@, dirty, cleaned)]
                            cleaned_orphans(root, folders.1@, dirty, cleaned) && (dirty ==> (exists|
                                s: &str,
                                saved: Result<(), String>,
                            |
                                #![trigger call_ensures(save_settings_file, (s, &cleaned), saved)]
                                s@ == settings_file_path && call_ensures(
                                    save_settings_file,
                                    (s, &cleaned),
                                    saved,
                                )) && logged(log, "INFO"@, cleaned_message())) && (r matches Ok(rows)
                                && rendered(cleaned, folders.0@, mods_path, read_mod_info, rows@)),
                    },
            }
}

/// The mod list: without a game path an error; without a settings file an
/// empty list (logged); else `mods_after_settings` for the game's mods
/// folder and settings file.
pub open spec fn mods_for_render_outcome<G, E, Rf, Rd, Ps, W, I, L>(
    find_game_path: G,
    path_exists: E,
    read_real_folders: Rf,
    read_to_string: Rd,
    parse_settings: Ps,
    save_settings_file: W,
    read_mod_info: I,
    log: L,
    r: Result<Vec<ModRenderData>, String>,
) -> bool
    where
        G: FnOnce() -> Option<String>,
        E: Fn(&str) -> bool,
        Rf: Fn(&str) -> (Vec<(String, String)>, Vec<String>),
        Rd: Fn(&str) -> Result<String, String>,
        Ps: Fn(&str) -> Result<SettingsData, String>,
        W: Fn(&str, &SettingsData) -> Result<(), String>,
        I: Fn(&str) -> Option<ModInfo>,
        L: Fn(&str, &str),
{
    exists|g: Option<String>|
        #![trigger call_ensures(find_game_path, (), g)]
        call_ensures(find_game_path, (), g) && match g {
            None => r matches Err(m) && m@ == no_game_installation_message(),
            Some(game) => exists|p: &str, present: bool|
                #![trigger call_ensures(path_exists, (p,), present)]
                p@ == settings_file_spec(game@) && call_ensures(path_exists, (p,), present) && (!present
                    ==> (r matches Ok(rows) && rows@.len() == 0) && logged(
                    log,
                    "DEBUG"@,
                    settings_missing_message(settings_file_spec(game@)),
                )) && (present ==> mods_after_settings(
                    mods_root_spec(game@),
                    settings_file_spec(game@),
                    read_real_folders,
                    read_to_string,
                    parse_settings,
                    save_settings_file,
                    read_mod_info,
                    log,
                    r,
                )),
        }
}

/// The mod list of the game, with orphaned settings entries cleaned away.
pub fn get_all_mods_for_render_with<G, E, Rf, Rd, Ps, W, I, L>(
    find_game_path: G,
    path_exists: E,
    read_real_folders: Rf,
    read_to_string: Rd,
    parse_settings: Ps,
    save_settings_file: W,
    read_mod_info: I,
    log: L,
) -> (r: Result<Vec<ModRenderData>, String>)
    where
        G: FnOnce() -> Option<String>,
        E: Fn(&str) -> bool,
        Rf: Fn(&str) -> (Vec<(String, String)>, Vec<String>),
        Rd: Fn(&str) -> Result<String, String>,
        Ps: Fn(&str) -> Result<SettingsData, String>,
        W: Fn(&str, &SettingsData) -> Result<(), String>,
        I: Fn(&str) -> Option<ModInfo>,
        L: Fn(&str, &str),
    requires
        call_requires(find_game_path, ()),
        forall|a: &str| call_requires(path_exists, (a,)),
        forall|a: &str| call_requires(read_real_folders, (a,)),
        forall|a: &str| call_requires(read_to_string, (a,)),
        forall|a: &str| call_requires(parse_settings, (a,)),
        forall|a: &str, d: &SettingsData| call_requires(save_settings_file, (a, d)),
        forall|a: &str| call_requires(read_mod_info, (a,)),
        forall|a: &str, b: &str| call_requires(log, (a, b)),
    ensures
        mods_for_render_outcome(
            find_game_path,
            path_exists,
            read_real_folders,
            read_to_string,
            parse_settings,
            save_settings_file,
            read_mod_info,
            log,
            r,
        ),
{
    let found = find_game_path();
    assert(call_ensures(find_game_path, (), found));
    let game_path = match found {
        None => {
            return Err(missing_game_installation_path_error());
        },
        Some(g) => g,
    };
    let mods_path = mods_root_from_game_path(game_path.as_str());
    let settings_file_path = settings_file_from_game_path(game_path.as_str());
    let sp = settings_file_path.as_str();
    let present = path_exists(sp);
    assert(call_ensures(path_exists, (sp,), present));
    if !present {
        let message = concat2("GCMODSETTINGS.MXML not found at: ", sp);
        let level = "DEBUG";
        let m = message.as_str();
        log(level, m);
        assert(call_ensures(log, (level, m), ()));
        return Ok(Vec::new());
    }
    let mp = mods_path.as_str();
    let folders = read_real_folders(mp);
    assert(call_ensures(read_real_folders, (mp,), folders));
    let content = read_settings_xml(sp, read_to_string, &log);
    let xml = match content {
        Err(e) => {
            return Err(e);
        },
        Ok(x) => x,
    };
    let parsed = parse_settings_xml(xml.as_str(), parse_settings, &log);
    let mut root = match parsed {
        Err(e) => {
            return Err(e);
        },
        Ok(root) => root,
    };
    let ghost before = root;
    let dirty = clean_orphaned_entries(&mut root, &folders.1);
    if dirty {
        let saved = save_settings_file(sp, &root);
        assert(call_ensures(save_settings_file, (sp, &root), saved));
        let level = "INFO";
        let m = "Cleaned orphaned mods from GCMODSETTINGS.MXML";
        log(level, m);
        assert(call_ensures(log, (level, m), ()));
    }
    let rows = build_mods_to_render(&root, &folders.0, mp, read_mod_info);
    assert(cleaned_orphans(before, folders.1@, dirty, root));
    Ok(rows)
}

/// `true` or `false`, as a `bool` displays.
pub open spec fn bool_text(b: bool) -> Seq<char> {
    if b {
        "true"@
    } else {
        "false"@
    }
}

fn bool_to_string(b: bool) -> (r: String)
    ensures
        r@ == bool_text(b),
{
    if b {
        "true".to_string()
    } else {
        "false".to_string()
    }
}

/// The items of a list of strings in their `Debug` form, comma separated.
pub open spec fn debug_items(s: Seq<String>) -> Seq<char>
    decreases s.len(),
{
    if s.len() == 0 {
        Seq::empty()
    } else if s.len() == 1 {
        debug_text(s[0]@)
    } else {
        debug_items(s.drop_last()) + ", "@ + debug_text(s.last()@)
    }
}

/// The `Debug` form of a list of strings: `["a", "b"]`.
pub open spec fn debug_list_text(s: Seq<String>) -> Seq<char> {
    "["@ + debug_items(s) + "]"@
}

/// `format!("{:?}", items)` for a list of strings.
pub fn debug_list(items: &[String]) -> (r: String)
    ensures
        r@ == debug_list_text(items@),
{
    let mut inner = String::new();
    let mut i: usize = 0;
    while i < items.len()
        invariant
            i <= items@.len(),
            inner@ == debug_items(items@.take(i as int)),
        decreases items@.len() - i,
    {
        let shown = debug_quoted(items[i].as_str());
        let ghost t = items@.take(i as int + 1);
        assert(t.drop_last() =~= items@.take(i as int));
        if i > 0 {
            append_str(&mut inner, ", ");
        }
        append_str(&mut inner, shown.as_str());
        proof {
            if i == 0 {
                assert(inner@ =~= debug_text(t[0]@));
            } else {
                assert(inner@ =~= debug_items(t.drop_last()) + ", "@ + debug_text(t.last()@));
            }
        }
        i = i + 1;
    }
    assert(items@.take(items@.len() as int) =~= items@);
    let mut r = owned("[");
    append_str(&mut r, inner.as_str());
    append_str(&mut r, "]");
    r
}

pub open spec fn library_folder_missing_message(path: Seq<char>) -> Seq<char> {
    "Library folder missing: "@ + path_debug_text(path)
}

/// The library folder of `library_id` must exist; a missing one is an error
/// (logged) naming it.
pub fn ensure_existing_source_root<E, L>(library_dir: &str, library_id: &str, path_exists: E, log: L) -> (r:
    Result<String, String>)
    where
        E: Fn(&str) -> bool,
        L: Fn(&str, &str),
    requires
        forall|a: &str| call_requires(path_exists, (a,)),
        forall|a: &str, b: &str| call_requires(log, (a, b)),
    ensures
        source_root_outcome(path_join(library_dir@, library_id@), path_exists, log, r),
{
    let source_root = join_path(library_dir, library_id);
    let sr = source_root.as_str();
    let present = path_exists(sr);
    assert(call_ensures(path_exists, (sr,), present));
    if present {
        Ok(source_root)
    } else {
        let shown = path_debug_quoted(sr);
        let err = concat2("Library folder missing: ", shown.as_str());
        let level = "ERROR";
        let em = err.as_str();
        log(level, em);
        assert(call_ensures(log, (level, em), ()));
        Err(err)
    }
}

/// The library folder at `source_root` is probed: present, it is the result;
/// missing, the result is the logged error naming it.
pub open spec fn source_root_outcome<E, L>(source_root: Seq<char>, path_exists: E, log: L, r: Result<String, String>) -> bool
    where
        E: Fn(&str) -> bool,
        L: Fn(&str, &str),
{
    exists|p: &str, present: bool|
        #![trigger call_ensures(path_exists, (p,), present)]
        p@ == source_root && call_ensures(path_exists, (p,), present) && if present {
            r matches Ok(s) && s@ == source_root
        } else {
            r matches Err(m) && m@ == library_folder_missing_message(source_root) && logged(
                log,
                "ERROR"@,
                library_folder_missing_message(source_root),
            )
        }
}

pub open spec fn scan_all_message() -> Seq<char> {
    "No specific folders selected. Scanning all top-level folders."@
}

pub open spec fn selected_message(selected: Seq<String>) -> Seq<char> {
    "Selected folders to install: "@ + debug_list_text(selected)
}

/// The selection is logged; the items are every top-level folder of the
/// source for an empty or `.` selection, else the selection.
pub open spec fn select_outcome<D, L>(
    source_root: &str,
    selected: Seq<String>,
    list_dir_names: D,
    log: L,
    r: Result<Vec<String>, String>,
) -> bool
    where
        D: Fn(&str) -> Result<Vec<String>, String>,
        L: Fn(&str, &str),
{
    let all = selected.len() == 0 || (selected.len() == 1 && selected[0]@ == "."@);
    &&& all ==> logged(log, "INFO"@, scan_all_message()) && call_ensures(list_dir_names, (source_root,), r)
    &&& !all ==> logged(log, "INFO"@, selected_message(selected)) && (r matches Ok(v) && crate::install_planning::views(v@)
        == crate::install_planning::views(selected))
}

/// Logs the selection and gives the items to install.
pub fn select_install_items<D, L>(source_root: &str, selected_folders: &[String], list_dir_names: D, log: L) -> (r:
    Result<Vec<String>, String>)
    where
        D: Fn(&str) -> Result<Vec<String>, String>,
        L: Fn(&str, &str),
    requires
        call_requires(list_dir_names, (source_root,)),
        forall|a: &str, b: &str| call_requires(log, (a, b)),
    ensures
        select_outcome(source_root, selected_folders@, list_dir_names, log, r),
{
    let level = "INFO";
    if is_scan_all_selection(selected_folders) {
        let m = "No specific folders selected. Scanning all top-level folders.";
        log(level, m);
        assert(call_ensures(log, (level, m), ()));
    } else {
        let shown = debug_list(selected_folders);
        let message = concat2("Selected folders to install: ", shown.as_str());
        let m = message.as_str();
        log(level, m);
        assert(call_ensures(log, (level, m), ()));
    }
    select_items_to_process(source_root, selected_folders, list_dir_names)
}

/// The mod id in the info of the folder at `path`, if any.
pub fn read_mod_id_for_candidate<I>(path: &str, read_mod_info: I) -> (r: Option<String>)
    where
        I: Fn(&str) -> Option<ModInfo>,
    requires
        call_requires(read_mod_info, (path,)),
    ensures
        exists|info: Option<ModInfo>|
            #![trigger call_ensures(read_mod_info, (path,), info)]
            call_ensures(read_mod_info, (path,), info) && r == match info {
                Some(i) => i.mod_id,
                None => None,
            },
{
    let info = read_mod_info(path);
    assert(call_ensures(read_mod_info, (path,), info));
    match info {
        Some(i) => i.mod_id,
        None => None,
    }
}

/// What the disk says of an item's folder at `source`: whether it exists
/// and, when flattening an existing one, the mod roots found under it.
pub open spec fn probe_for<E, A>(source: Seq<char>, flatten: bool, path_exists: E, scan_installable: A, probe: SourceProbe) -> bool
    where
        E: Fn(&str) -> bool,
        A: Fn(&str, &str) -> Vec<String>,
{
    &&& exists|p: &str| #![trigger call_ensures(path_exists, (p,), probe.exists)] p@ == source && call_ensures(path_exists, (p,), probe.exists)
    &&& probe.exists && flatten ==> exists|p: &str|
        #![trigger call_ensures(scan_installable, (p, p), probe.installable)]
        p@ == source && call_ensures(scan_installable, (p, p), probe.installable)
    &&& !(probe.exists && flatten) ==> probe.installable@.len() == 0
}

/// Probes the folder of each item under `source_root`.
pub fn probe_items<E, A>(source_root: &str, items: &Vec<String>, flatten_paths: bool, path_exists: E, scan_installable: A) -> (r: Vec<SourceProbe>)
    where
        E: Fn(&str) -> bool,
        A: Fn(&str, &str) -> Vec<String>,
    requires
        forall|a: &str| call_requires(path_exists, (a,)),
        forall|a: &str, b: &str| call_requires(scan_installable, (a, b)),
    ensures
        r@.len() == items@.len(),
        forall|i: int|
            0 <= i < r@.len() ==> probe_for(
                item_source(source_root@, items@[i]@),
                flatten_paths,
                path_exists,
                scan_installable,
                #[trigger] r@[i],
            ),
{
    let mut probes: Vec<SourceProbe> = Vec::new();
    let mut i: usize = 0;
    while i < items.len()
        invariant
            i <= items@.len(),
            probes@.len() == i,
            forall|a: &str| call_requires(path_exists, (a,)),
            forall|a: &str, b: &str| call_requires(scan_installable, (a, b)),
            forall|k: int|
                0 <= k < i ==> probe_for(
                    item_source(source_root@, items@[k]@),
                    flatten_paths,
                    path_exists,
                    scan_installable,
                    #[trigger] probes@[k],
                ),
        decreases items@.len() - i,
    {
        let item = items[i].as_str();
        let source = if str_eq(item, ".") {
            owned(source_root)
        } else {
            join_path(source_root, item)
        };
        let sp = source.as_str();
        let exists = path_exists(sp);
        assert(call_ensures(path_exists, (sp,), exists));
        let installable = if exists && flatten_paths {
            let v = scan_installable(sp, sp);
            assert(call_ensures(scan_installable, (sp, sp), v));
            v
        } else {
            Vec::new()
        };
        let ghost inst = installable;
        let probe = SourceProbe { exists, installable };
        assert(source@ == item_source(source_root@, items@[i as int]@));
        assert(call_ensures(path_exists, (sp,), probe.exists));
        assert(probe.exists && flatten_paths ==> call_ensures(scan_installable, (sp, sp), probe.installable));
        assert(!(probe.exists && flatten_paths) ==> probe.installable@.len() == 0);
        assert(probe_for(item_source(source_root@, items@[i as int]@), flatten_paths, path_exists, scan_installable, probe));
        probes.push(probe);
        i = i + 1;
    }
    probes
}

/// `c` is the candidate of the deploy operation `op` (source, name): same
/// source and name, the mod id of the source's info, and whether
/// `<mods>/<name>` exists.
pub open spec fn candidate_via<I, E>(
    op: (Seq<char>, Seq<char>),
    mods_path: Seq<char>,
    read_mod_info: I,
    path_exists: E,
    c: DeployCandidate,
) -> bool
    where
        I: Fn(&str) -> Option<ModInfo>,
        E: Fn(&str) -> bool,
{
    &&& c.source@ == op.0
    &&& c.dest_name@ == op.1
    &&& exists|s: &str, info: Option<ModInfo>|
        #![trigger call_ensures(read_mod_info, (s,), info)]
        s@ == op.0 && call_ensures(read_mod_info, (s,), info) && c.mod_id == match info {
            Some(i) => i.mod_id,
            None => None,
        }
    &&& exists|d: &str|
        #![trigger call_ensures(path_exists, (d,), c.dest_exists)]
        d@ == path_join(mods_path, op.1) && call_ensures(path_exists, (d,), c.dest_exists)
}

pub open spec fn finalize_done_message() -> Seq<char> {
    "Installation finalization complete."@
}

/// `a` reports the mods installed and staged in `out`, and nothing else.
pub open spec fn finalized_analysis(a: InstallationAnalysis, s: Seq<(Seq<char>, Seq<char>)>, c: Seq<(Seq<char>, Seq<char>, Seq<char>)>) -> bool {
    &&& successes_view(a.successes@) == s
    &&& conflicts_view(a.conflicts@) == c
    &&& a.messy_archive_path is None
    &&& a.active_archive_path is None
    &&& !a.selection_needed
    &&& a.temp_id is None
    &&& a.available_folders is None
}

/// What finalising gives from the deploy operations on: a candidate per
/// operation, an action per candidate, and the outcome of applying them.
pub open spec fn finalize_from_ops<I, E, C, Dp, L>(
    ops: Seq<(Seq<char>, Seq<char>)>,
    mods_path: Seq<char>,
    installed: Seq<(String, String)>,
    conflict_staging: Seq<char>,
    read_mod_info: I,
    path_exists: E,
    create_dir_all: C,
    deploy: Dp,
    log: L,
    r: Result<InstallationAnalysis, String>,
) -> bool
    where
        I: Fn(&str) -> Option<ModInfo>,
        E: Fn(&str) -> bool,
        C: Fn(&str) -> Result<(), std::io::Error>,
        Dp: Fn(&str, &str) -> Result<(), String>,
        L: Fn(&str, &str),
{
    exists|cands: Seq<DeployCandidate>, actions: Seq<PlannedInstallAction>, out: ApplyView|
        #![trigger apply_actions(actions, conflict_staging, path_exists, create_dir_all, deploy, out), cands.len()]
        cands.len() == ops.len() && (forall|i: int|
            0 <= i < cands.len() ==> candidate_via(ops[i], mods_path, read_mod_info, path_exists, #[trigger] cands[i]))
            && actions.len() == cands.len() && (forall|i: int|
            0 <= i < actions.len() ==> planned_action(cands[i], installed, mods_path, conflict_staging, #[trigger] actions[i]))
            && apply_actions(actions, conflict_staging, path_exists, create_dir_all, deploy, out) && match out {
            Err(e) => r matches Err(m) && m@ == e,
            Ok((s, c)) => (r matches Ok(a) && finalized_analysis(a, s, c)) && logged(log, "INFO"@, finalize_done_message()),
        }
}

/// What finalising gives once the source folder and the mods folder are
/// known: the installed mods are collected, the conflict staging folder
/// chosen (by the time), the items selected, probed and turned into deploy
/// operations, then `finalize_from_ops`. The first failing step ends it.
pub open spec fn finalize_from_source<P, L, E, C, Le, I, Dl, A, Dp>(
    source_root: Seq<char>,
    mods_path: Seq<char>,
    selected: Seq<String>,
    flatten_paths: bool,
    get_pulsar_root: P,
    log: L,
    path_exists: E,
    create_dir_all: C,
    list_entry_paths: Le,
    read_mod_info: I,
    list_dir_names: Dl,
    scan_installable: A,
    deploy: Dp,
    r: Result<InstallationAnalysis, String>,
) -> bool
    where
        P: FnOnce() -> Result<String, String>,
        L: Fn(&str, &str),
        E: Fn(&str) -> bool,
        C: Fn(&str) -> Result<(), std::io::Error>,
        Le: Fn(&str) -> Vec<String>,
        I: Fn(&str) -> Option<ModInfo>,
        Dl: Fn(&str) -> Result<Vec<String>, String>,
        A: Fn(&str, &str) -> Vec<String>,
        Dp: Fn(&str, &str) -> Result<(), String>,
{
    exists|m: &str, installed: Vec<(String, String)>|
        #![trigger collect_outcome(m, list_entry_paths, &read_mod_info, table_view(installed@))]
        m@ == mods_path && collect_outcome(m, list_entry_paths, &read_mod_info, table_view(installed@))
            && exists|staging_r: Result<String, String>|
            #![trigger staging_outcome(get_pulsar_root, &create_dir_all, staging_r)]
            staging_outcome(get_pulsar_root, &create_dir_all, staging_r) && match staging_r {
                Err(e) => r == Err::<InstallationAnalysis, String>(e),
                Ok(staging) => exists|now: i64, sr: &str, items_r: Result<Vec<String>, String>|
                    #![trigger select_outcome(sr, selected, list_dir_names, &log, items_r), conflict_staging_spec(staging@, now)]
                    sr@ == source_root && select_outcome(sr, selected, list_dir_names, &log, items_r) && match items_r {
                        Err(e) => r == Err::<InstallationAnalysis, String>(e),
                        Ok(items) => exists|probes: Seq<SourceProbe>|
                            #![trigger build_ops_spec(source_root, items@, flatten_paths, probes, items@.len())]
                            probes.len() == items@.len() && (forall|i: int|
                                0 <= i < probes.len() ==> probe_for(
                                    item_source(source_root, items@[i]@),
                                    flatten_paths,
                                    &path_exists,
                                    scan_installable,
                                    #[trigger] probes[i],
                                )) && match build_ops_spec(source_root, items@, flatten_paths, probes, items@.len()) {
                                None => r matches Err(e) && e@ == crate::install_scan::invalid_path_message(),
                                Some(ops) => finalize_from_ops(
                                    ops,
                                    mods_path,
                                    installed@,
                                    conflict_staging_spec(staging@, now),
                                    read_mod_info,
                                    &path_exists,
                                    &create_dir_all,
                                    deploy,
                                    log,
                                    r,
                                ),
                            },
                    },
            }
}

pub open spec fn finalizing_message(library_id: Seq<char>, flatten_paths: bool) -> Seq<char> {
    "Finalizing installation. Source: "@ + library_id + ", Flatten: "@ + bool_text(flatten_paths)
}

/// The whole of finalising an install: logged; no game path is an error;
/// else the mods folder is created, the library folder found and the
/// source folder checked (each failure ends it), then `finalize_from_source`.
pub open spec fn finalize_outcome<G, B, P, L, E, C, Le, I, Dl, A, Dp>(
    library_id: Seq<char>,
    selected: Seq<String>,
    flatten_paths: bool,
    find_game_path: G,
    get_library_dir: B,
    get_pulsar_root: P,
    log: L,
    path_exists: E,
    create_dir_all: C,
    list_entry_paths: Le,
    read_mod_info: I,
    list_dir_names: Dl,
    scan_installable: A,
    deploy: Dp,
    r: Result<InstallationAnalysis, String>,
) -> bool
    where
        G: FnOnce() -> Option<String>,
        B: FnOnce() -> Result<String, String>,
        P: FnOnce() -> Result<String, String>,
        L: Fn(&str, &str),
        E: Fn(&str) -> bool,
        C: Fn(&str) -> Result<(), std::io::Error>,
        Le: Fn(&str) -> Vec<String>,
        I: Fn(&str) -> Option<ModInfo>,
        Dl: Fn(&str) -> Result<Vec<String>, String>,
        A: Fn(&str, &str) -> Vec<String>,
        Dp: Fn(&str, &str) -> Result<(), String>,
{
    &&& logged(log, "INFO"@, finalizing_message(library_id, flatten_paths))
    &&& exists|g: Option<String>|
        #![trigger call_ensures(find_game_path, (), g)]
        call_ensures(find_game_path, (), g) && match g {
            None => r matches Err(m) && m@ == missing_game_path_message(),
            Some(game) => exists|created: Result<(), std::io::Error>|
                #![trigger made_dir(create_dir_all, mods_root_spec(game@), created)]
                made_dir(create_dir_all, mods_root_spec(game@), created) && match created {
                    Err(_) => r is Err,
                    Ok(()) => exists|lib: Result<String, String>|
                        #![trigger call_ensures(get_library_dir, (), lib)]
                        call_ensures(get_library_dir, (), lib) && match lib {
                            Err(e) => r == Err::<InstallationAnalysis, String>(e),
                            Ok(library_dir) => exists|src: Result<String, String>|
                                #![trigger source_root_outcome(path_join(library_dir@, library_id), &path_exists, &log, src)]
                                source_root_outcome(path_join(library_dir@, library_id), &path_exists, &log, src)
                                    && match src {
                                    Err(e) => r == Err::<InstallationAnalysis, String>(e),
                                    Ok(source_root) => finalize_from_source(
                                        source_root@,
                                        mods_root_spec(game@),
                                        selected,
                                        flatten_paths,
                                        get_pulsar_root,
                                        log,
                                        path_exists,
                                        create_dir_all,
                                        list_entry_paths,
                                        read_mod_info,
                                        list_dir_names,
                                        scan_installable,
                                        deploy,
                                        r,
                                    ),
                                },
                        },
                },
        }
}

fn finalize_from_source_root<P, L, E, C, Le, I, Dl, A, Dp>(
    source_root: String,
    mods_path: &str,
    selected_folders: Vec<String>,
    flatten_paths: bool,
    get_pulsar_root: P,
    log: L,
    path_exists: E,
    create_dir_all: C,
    list_entry_paths: Le,
    read_mod_info: I,
    list_dir_names: Dl,
    scan_installable: A,
    deploy: Dp,
) -> (r: Result<InstallationAnalysis, String>)
    where
        P: FnOnce() -> Result<String, String>,
        L: Fn(&str, &str),
        E: Fn(&str) -> bool,
        C: Fn(&str) -> Result<(), std::io::Error>,
        Le: Fn(&str) -> Vec<String>,
        I: Fn(&str) -> Option<ModInfo>,
        Dl: Fn(&str) -> Result<Vec<String>, String>,
        A: Fn(&str, &str) -> Vec<String>,
        Dp: Fn(&str, &str) -> Result<(), String>,
    requires
        call_requires(get_pulsar_root, ()),
        forall|a: &str, b: &str| call_requires(log, (a, b)),
        forall|a: &str| call_requires(path_exists, (a,)),
        forall|a: &str| call_requires(create_dir_all, (a,)),
        forall|a: &str| call_requires(list_entry_paths, (a,)),
        forall|a: &str| call_requires(read_mod_info, (a,)),
        forall|a: &str| call_requires(list_dir_names, (a,)),
        forall|a: &str, b: &str| call_requires(scan_installable, (a, b)),
        forall|a: &str, b: &str| call_requires(deploy, (a, b)),
    ensures
        finalize_from_source(
            source_root@,
            mods_path@,
            selected_folders@,
            flatten_paths,
            get_pulsar_root,
            log,
            path_exists,
            create_dir_all,
            list_entry_paths,
            read_mod_info,
            list_dir_names,
            scan_installable,
            deploy,
            r,
        ),
{
    let installed = collect_installed_mods_by_id(mods_path, list_entry_paths, &read_mod_info);
    let staging = get_staging_dir_with(get_pulsar_root, &create_dir_all);
    let staging_dir = match staging {
        Err(e) => {
            return Err(e);
        },
        Ok(s) => s,
    };
    let now = unix_millis_or_zero(system_time_now());
    let conflict_staging = conflict_staging_path(staging_dir.as_str(), now);
    let sr = source_root.as_str();
    let items_r = select_install_items(sr, selected_folders.as_slice(), list_dir_names, &log);
    let items = match items_r {
        Err(e) => {
            assert(select_outcome(sr, selected_folders@, list_dir_names, &log, Err(e)));
            assert(conflict_staging_spec(staging_dir@, now) == conflict_staging@);
            return Err(e);
        },
        Ok(items) => items,
    };
    let probes = probe_items(sr, &items, flatten_paths, &path_exists, scan_installable);
    let ghost items_v = items@;
    let ops_r = build_deploy_ops(sr, items, flatten_paths, &probes);
    let ops = match ops_r {
        Err(e) => {
            assert(conflict_staging_spec(staging_dir@, now) == conflict_staging@);
            return Err(e);
        },
        Ok(ops) => ops,
    };
    let ghost ops_v = op_views(ops@);
    let read_id = |p: &str| -> (o: Option<String>)
        ensures
            exists|info: Option<ModInfo>|
                #![trigger call_ensures(&read_mod_info, (p,), info)]
                call_ensures(&read_mod_info, (p,), info) && o == match info {
                    Some(i) => i.mod_id,
                    None => None,
                },
        { read_mod_id_for_candidate(p, &read_mod_info) };
    let candidates = build_deploy_candidates_with(ops, mods_path, read_id, &path_exists);
    let ghost cands_v = candidates@;
    proof {
        assert forall|i: int| 0 <= i < cands_v.len() implies candidate_via(
            ops_v[i],
            mods_path@,
            read_mod_info,
            &path_exists,
            #[trigger] cands_v[i],
        ) by {
            assert(candidate_of(ops@[i], mods_path@, read_id, &path_exists, cands_v[i]));
            let s = choose|s: &str| s@ == ops@[i].source@ && call_ensures(read_id, (s,), cands_v[i].mod_id);
            let info = choose|info: Option<ModInfo>|
                call_ensures(read_mod_info, (s,), info) && cands_v[i].mod_id == match info {
                    Some(x) => x.mod_id,
                    None => None,
                };
            assert(call_ensures(read_mod_info, (s,), info));
        }
    }
    let actions = plan_install_actions(candidates, &installed, mods_path, conflict_staging.as_str());
    let ghost actions_v = actions@;
    let applied = apply_planned_install_actions(
        actions,
        conflict_staging.as_str(),
        &path_exists,
        &create_dir_all,
        deploy,
    );
    assert(conflict_staging_spec(staging_dir@, now) == conflict_staging@);
    match applied {
        Err(e) => {
            assert(finalize_from_ops(
                ops_v,
                mods_path@,
                installed@,
                conflict_staging@,
                read_mod_info,
                &path_exists,
                &create_dir_all,
                deploy,
                log,
                Err(e),
            ));
            Err(e)
        },
        Ok((successes, conflicts)) => {
            let level = "INFO";
            let m = "Installation finalization complete.";
            log(level, m);
            assert(call_ensures(log, (level, m), ()));
            let a = InstallationAnalysis {
                successes,
                conflicts,
                messy_archive_path: None,
                active_archive_path: None,
                selection_needed: false,
                temp_id: None,
                available_folders: None,
            };
            assert(finalize_from_ops(
                ops_v,
                mods_path@,
                installed@,
                conflict_staging@,
                read_mod_info,
                &path_exists,
                &create_dir_all,
                deploy,
                log,
                Ok(a),
            ));
            Ok(a)
        },
    }
}

/// Finalises an install from the library folder `library_id`: deploys the
/// selected folders (all top-level ones for an empty or `.` selection; the
/// mod roots under them when flattening) into the game's mods folder,
/// staging aside those that clash with an installed mod, and reports both.
/// The clashing ones are staged under `conflict_<ms>` in the staging folder,
/// `<ms>` being the clock's milliseconds since the Unix epoch (0 when the
/// clock reads before it); the contract holds whatever the clock reads.
pub fn finalize_installation_with<G, B, P, L, E, C, Le, I, Dl, A, Dp>(
    library_id: String,
    selected_folders: Vec<String>,
    flatten_paths: bool,
    find_game_path: G,
    get_library_dir: B,
    get_pulsar_root: P,
    log: L,
    path_exists: E,
    create_dir_all: C,
    list_entry_paths: Le,
    read_mod_info: I,
    list_dir_names: Dl,
    scan_installable: A,
    deploy_structure_recursive: Dp,
) -> (r: Result<InstallationAnalysis, String>)
    where
        G: FnOnce() -> Option<String>,
        B: FnOnce() -> Result<String, String>,
        P: FnOnce() -> Result<String, String>,
        L: Fn(&str, &str),
        E: Fn(&str) -> bool,
        C: Fn(&str) -> Result<(), std::io::Error>,
        Le: Fn(&str) -> Vec<String>,
        I: Fn(&str) -> Option<ModInfo>,
        Dl: Fn(&str) -> Result<Vec<String>, String>,
        A: Fn(&str, &str) -> Vec<String>,
        Dp: Fn(&str, &str) -> Result<(), String>,
    requires
        call_requires(find_game_path, ()),
        call_requires(get_library_dir, ()),
        call_requires(get_pulsar_root, ()),
        forall|a: &str, b: &str| call_requires(log, (a, b)),
        forall|a: &str| call_requires(path_exists, (a,)),
        forall|a: &str| call_requires(create_dir_all, (a,)),
        forall|a: &str| call_requires(list_entry_paths, (a,)),
        forall|a: &str| call_requires(read_mod_info, (a,)),
        forall|a: &str| call_requires(list_dir_names, (a,)),
        forall|a: &str, b: &str| call_requires(scan_installable, (a, b)),
        forall|a: &str, b: &str| call_requires(deploy_structure_recursive, (a, b)),
    ensures
        finalize_outcome(
            library_id@,
            selected_folders@,
            flatten_paths,
            find_game_path,
            get_library_dir,
            get_pulsar_root,
            log,
            path_exists,
            create_dir_all,
            list_entry_paths,
            read_mod_info,
            list_dir_names,
            scan_installable,
            deploy_structure_recursive,
            r,
        ),
{
    let mut message = owned("Finalizing installation. Source: ");
    append_str(&mut message, library_id.as_str());
    append_str(&mut message, ", Flatten: ");
    let flag = bool_to_string(flatten_paths);
    append_str(&mut message, flag.as_str());
    let level = "INFO";
    let m = message.as_str();
    log(level, m);
    assert(call_ensures(log, (level, m), ()));
    let found = find_game_path();
    assert(call_ensures(find_game_path, (), found));
    let game_path = match found {
        None => {
            return Err(missing_game_path_error());
        },
        Some(g) => g,
    };
    let mods_path = mods_root_from_game_path(game_path.as_str());
    let mp = mods_path.as_str();
    let created = create_dir_all(mp);
    assert(call_ensures(create_dir_all, (mp,), created));
    assert(made_dir(create_dir_all, mods_root_spec(game_path@), created));
    if let Err(e) = created {
        return Err(io_error_to_string(e));
    }
    let lib = get_library_dir();
    assert(call_ensures(get_library_dir, (), lib));
    let library_dir = match lib {
        Err(e) => {
            return Err(e);
        },
        Ok(l) => l,
    };
    let src = ensure_existing_source_root(library_dir.as_str(), library_id.as_str(), &path_exists, &log);
    let source_root = match src {
        Err(e) => {
            return Err(e);
        },
        Ok(s) => s,
    };
    finalize_from_source_root(
        source_root,
        mp,
        selected_folders,
        flatten_paths,
        get_pulsar_root,
        log,
        path_exists,
        create_dir_all,
        list_entry_paths,
        read_mod_info,
        list_dir_names,
        scan_installable,
        deploy_structure_recursive,
    )
}

} // verus!
