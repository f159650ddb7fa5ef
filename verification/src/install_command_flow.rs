//! The progress events an install from an archive reports.
use vstd::prelude::*;
use crate::install_archive_flow::{invalid_archive_name_message, library_folder_spec};
use crate::install_command_core::{archive_path_from_input, archive_path_spec, build_install_archive_context};
use crate::install_orchestration::{
    apply_archive_decision, decision_outcome, emitted_by, extraction_progress_step, extraction_step_spec,
    make_progress_payload,
};
use crate::install_planning::{decide_archive_flow, decided, ArchiveDecision};
use crate::models::{InstallProgressPayload, InstallationAnalysis};
use crate::paths::path_join;
use crate::text::owned;

verus! {

/// `p` is the step event `step` of install `id`, without a percentage.
pub open spec fn is_step_payload(p: InstallProgressPayload, id: Seq<char>, step: Seq<char>) -> bool {
    p.id@ == id && p.step@ == step && p.progress.is_none()
}

/// `p` is the extraction event of install `id` at `pct` percent.
pub open spec fn is_extraction_payload(p: InstallProgressPayload, id: Seq<char>, pct: u64) -> bool {
    p.id@ == id && p.step@ == extraction_step_spec(pct) && p.progress == Some(pct)
}

/// The event of install step `step`.
pub fn install_step_payload(download_id: &str, step: &str) -> (r: InstallProgressPayload)
    ensures
        is_step_payload(r, download_id@, step@),
{
    make_progress_payload(download_id, owned(step), None)
}

/// The event of extraction at `pct` percent.
pub fn extraction_step_payload(download_id: &str, pct: u64) -> (r: InstallProgressPayload)
    ensures
        is_extraction_payload(r, download_id@, pct),
{
    make_progress_payload(download_id, extraction_progress_step(pct), Some(pct))
}

/// Emits the event of install step `step`.
pub fn emit_install_step_with(download_id: &str, step: &str, emit_event: impl Fn(InstallProgressPayload))
    requires
        forall|p: InstallProgressPayload| call_requires(emit_event, (p,)),
    ensures
        exists|p: InstallProgressPayload|
            is_step_payload(p, download_id@, step@) && call_ensures(emit_event, (p,), ()),
{
    emit_event(install_step_payload(download_id, step));
}

/// Emits the event of extraction at `pct` percent.
pub fn emit_extraction_step_with(download_id: &str, pct: u64, emit_event: impl Fn(InstallProgressPayload))
    requires
        forall|p: InstallProgressPayload| call_requires(emit_event, (p,)),
    ensures
        exists|p: InstallProgressPayload|
            is_extraction_payload(p, download_id@, pct) && call_ensures(emit_event, (p,), ()),
{
    emit_event(extraction_step_payload(download_id, pct));
}

/// What installing from an archive gives once the archive sits at
/// `final_path` in the downloads folder: the library folder is derived from
/// its name (none is an error), the archive extracted there, the folder
/// scanned, the install decided and carried out. `emitted` says which
/// progress steps were reported; the first failing step ends it.
pub open spec fn install_after_copy<X, S, F>(
    final_path: Seq<char>,
    library_dir: Seq<char>,
    emitted: spec_fn(Seq<char>) -> bool,
    extract: X,
    scan: S,
    finalize: F,
    r: Result<InstallationAnalysis, String>,
) -> bool
    where
        X: FnOnce(&str, &str) -> Result<(), String>,
        S: FnOnce(&str) -> Result<(Vec<String>, Vec<String>), String>,
        F: FnOnce(String, Vec<String>, bool) -> Result<InstallationAnalysis, String>,
{
    match library_folder_spec(final_path) {
        None => r matches Err(m) && m@ == invalid_archive_name_message(),
        Some(lib_id) => {
            let lib_mod = path_join(library_dir, lib_id);
            (exists|x: &str, y: &str, extracted: Result<(), String>|
                #![trigger call_ensures(extract, (x, y), extracted)]
                x@ == final_path && y@ == lib_mod && call_ensures(extract, (x, y), extracted) && match extracted {
                    Err(e) => r == Err::<InstallationAnalysis, String>(e),
                    Ok(()) => emitted("Analyzing structure..."@) && exists|
                        z: &str,
                        scanned: Result<(Vec<String>, Vec<String>), String>,
                    |
                        #![trigger call_ensures(scan, (z,), scanned)]
                        z@ == lib_mod && call_ensures(scan, (z,), scanned) && match scanned {
                            Err(e) => r == Err::<InstallationAnalysis, String>(e),
                            Ok((folders, installable)) => exists|
                                decision: ArchiveDecision,
                                lid: String,
                                fap: String,
                            |
                                #![trigger decided(installable@, folders@, lib_id, final_path, decision), lid@, fap@]
                                lid@ == lib_id && fap@ == final_path && decided(
                                    installable@,
                                    folders@,
                                    lib_id,
                                    final_path,
                                    decision,
                                ) && decision_outcome(lid, decision, fap, emitted, finalize, r),
                        },
                })
        },
    }
}

/// What installing from an archive gives: `Initializing...`, the archive
/// path taken from the input (a `file://` URL or a path), the downloads and
/// library folders found, `Copying to library...`, the archive put into the
/// downloads folder, then `install_after_copy`. The first failing step ends
/// it with its error.
pub open spec fn archive_install_outcome<D, B, C, X, S, F>(
    archive_path_str: Seq<char>,
    emitted: spec_fn(Seq<char>) -> bool,
    get_downloads_dir: D,
    get_library_dir: B,
    copy_archive: C,
    extract: X,
    scan: S,
    finalize: F,
    r: Result<InstallationAnalysis, String>,
) -> bool
    where
        D: FnOnce() -> Result<String, String>,
        B: FnOnce() -> Result<String, String>,
        C: FnOnce(&str, &str) -> Result<String, String>,
        X: FnOnce(&str, &str) -> Result<(), String>,
        S: FnOnce(&str) -> Result<(Vec<String>, Vec<String>), String>,
        F: FnOnce(String, Vec<String>, bool) -> Result<InstallationAnalysis, String>,
{
    &&& emitted("Initializing..."@)
    &&& exists|dl: Result<String, String>|
        #![trigger call_ensures(get_downloads_dir, (), dl)]
        call_ensures(get_downloads_dir, (), dl) && match dl {
            Err(e) => r == Err::<InstallationAnalysis, String>(e),
            Ok(downloads) => exists|lib: Result<String, String>|
                #![trigger call_ensures(get_library_dir, (), lib)]
                call_ensures(get_library_dir, (), lib) && match lib {
                    Err(e) => r == Err::<InstallationAnalysis, String>(e),
                    Ok(library) => emitted("Copying to library..."@) && exists|
                        a: &str,
                        b: &str,
                        copied: Result<String, String>,
                    |
                        #![trigger call_ensures(copy_archive, (a, b), copied)]
                        a@ == archive_path_spec(archive_path_str) && b@ == downloads@ && call_ensures(
                            copy_archive,
                            (a, b),
                            copied,
                        ) && match copied {
                            Err(e) => r == Err::<InstallationAnalysis, String>(e),
                            Ok(final_path) => install_after_copy(
                                final_path@,
                                library@,
                                emitted,
                                extract,
                                scan,
                                finalize,
                                r,
                            ),
                        },
                },
        }
}

/// Installs a mod from an archive (a path or a `file://` URL): copies it
/// into the downloads folder, extracts it into the library unless already
/// there, and either asks for a selection or finalises the install,
/// reporting each step through `emit_progress`.
pub fn install_mod_from_archive_with<D, B, P, C, X, S, F>(
    archive_path_str: String,
    get_downloads_dir: D,
    get_library_dir: B,
    emit_progress: P,
    copy_archive_to_downloads: C,
    extract_archive_if_needed: X,
    scan_library_mod_path: S,
    finalize_installation: F,
) -> (r: Result<InstallationAnalysis, String>)
    where
        D: FnOnce() -> Result<String, String>,
        B: FnOnce() -> Result<String, String>,
        P: Fn(&str),
        C: FnOnce(&str, &str) -> Result<String, String>,
        X: FnOnce(&str, &str) -> Result<(), String>,
        S: FnOnce(&str) -> Result<(Vec<String>, Vec<String>), String>,
        F: FnOnce(String, Vec<String>, bool) -> Result<InstallationAnalysis, String>,
    requires
        call_requires(get_downloads_dir, ()),
        call_requires(get_library_dir, ()),
        forall|s: &str| call_requires(emit_progress, (s,)),
        forall|a: &str, b: &str| call_requires(copy_archive_to_downloads, (a, b)),
        forall|a: &str, b: &str| call_requires(extract_archive_if_needed, (a, b)),
        forall|a: &str| call_requires(scan_library_mod_path, (a,)),
        forall|a: String, b: Vec<String>, c: bool| call_requires(finalize_installation, (a, b, c)),
    ensures
        archive_install_outcome(
            archive_path_str@,
            |step: Seq<char>| emitted_by(emit_progress, step),
            get_downloads_dir,
            get_library_dir,
            copy_archive_to_downloads,
            extract_archive_if_needed,
            scan_library_mod_path,
            finalize_installation,
            r,
        ),
{
    let ghost emitted = |step: Seq<char>| emitted_by(emit_progress, step);
    let init = "Initializing...";
    emit_progress(init);
    assert(call_ensures(emit_progress, (init,), ()));
    assert(emitted("Initializing..."@));
    let archive_path = archive_path_from_input(archive_path_str.as_str());
    let dl = get_downloads_dir();
    assert(call_ensures(get_downloads_dir, (), dl));
    let downloads_dir = match dl {
        Err(e) => {
            return Err(e);
        },
        Ok(d) => d,
    };
    let lib = get_library_dir();
    assert(call_ensures(get_library_dir, (), lib));
    let library_dir = match lib {
        Err(e) => {
            return Err(e);
        },
        Ok(l) => l,
    };
    let copying = "Copying to library...";
    emit_progress(copying);
    assert(call_ensures(emit_progress, (copying,), ()));
    assert(emitted("Copying to library..."@));
    let a = archive_path.as_str();
    let b = downloads_dir.as_str();
    let copied = copy_archive_to_downloads(a, b);
    assert(call_ensures(copy_archive_to_downloads, (a, b), copied));
    let final_archive_path = match copied {
        Err(e) => {
            return Err(e);
        },
        Ok(p) => p,
    };
    let ctx = match build_install_archive_context(final_archive_path.as_str(), library_dir.as_str()) {
        Err(e) => {
            return Err(e);
        },
        Ok(c) => c,
    };
    let x = final_archive_path.as_str();
    let y = ctx.library_mod_path.as_str();
    let extracted = extract_archive_if_needed(x, y);
    assert(call_ensures(extract_archive_if_needed, (x, y), extracted));
    if let Err(e) = extracted {
        return Err(e);
    }
    let analyzing = "Analyzing structure...";
    emit_progress(analyzing);
    assert(call_ensures(emit_progress, (analyzing,), ()));
    assert(emitted("Analyzing structure..."@));
    let scanned = scan_library_mod_path(y);
    assert(call_ensures(scan_library_mod_path, (y,), scanned));
    let (folder_names, installable_paths) = match scanned {
        Err(e) => {
            return Err(e);
        },
        Ok(v) => v,
    };
    let decision = decide_archive_flow(
        installable_paths.as_slice(),
        folder_names.as_slice(),
        ctx.library_id.as_str(),
        ctx.final_archive_path_str.as_str(),
    );
    let ghost lid = ctx.library_id;
    let ghost fap = ctx.final_archive_path_str;
    let ghost dec = decision;
    let r = apply_archive_decision(
        ctx.library_id,
        decision,
        ctx.final_archive_path_str,
        &emit_progress,
        finalize_installation,
    );
    assert(decision_outcome(lid, dec, fap, emitted, finalize_installation, r));
    r
}

/// The step event `step` of install `id` was emitted.
pub open spec fn step_event_emitted<E: Fn(InstallProgressPayload)>(emit_event: E, id: Seq<char>, step: Seq<char>) -> bool {
    exists|p: InstallProgressPayload|
        #![trigger call_ensures(emit_event, (p,), ())]
        is_step_payload(p, id, step) && call_ensures(emit_event, (p,), ())
}

/// An archive install outcome stays one when the reported steps are
/// described by a weaker relation.
pub proof fn lemma_archive_install_weaken<D, B, C, X, S, F>(
    archive_path_str: Seq<char>,
    emitted: spec_fn(Seq<char>) -> bool,
    emitted2: spec_fn(Seq<char>) -> bool,
    get_downloads_dir: D,
    get_library_dir: B,
    copy_archive: C,
    extract: X,
    scan: S,
    finalize: F,
    r: Result<InstallationAnalysis, String>,
)
    where
        D: FnOnce() -> Result<String, String>,
        B: FnOnce() -> Result<String, String>,
        C: FnOnce(&str, &str) -> Result<String, String>,
        X: FnOnce(&str, &str) -> Result<(), String>,
        S: FnOnce(&str) -> Result<(Vec<String>, Vec<String>), String>,
        F: FnOnce(String, Vec<String>, bool) -> Result<InstallationAnalysis, String>,
    requires
        archive_install_outcome(
            archive_path_str,
            emitted,
            get_downloads_dir,
            get_library_dir,
            copy_archive,
            extract,
            scan,
            finalize,
            r,
        ),
        forall|s: Seq<char>| #[trigger] emitted(s) ==> emitted2(s),
    ensures
        archive_install_outcome(
            archive_path_str,
            emitted2,
            get_downloads_dir,
            get_library_dir,
            copy_archive,
            extract,
            scan,
            finalize,
            r,
        ),
{
    assert(emitted("Initializing..."@));
    let dl = choose|dl: Result<String, String>| #![trigger call_ensures(get_downloads_dir, (), dl)]
        call_ensures(get_downloads_dir, (), dl) && match dl {
            Err(e) => r == Err::<InstallationAnalysis, String>(e),
            Ok(downloads) => exists|lib: Result<String, String>|
                #![trigger call_ensures(get_library_dir, (), lib)]
                call_ensures(get_library_dir, (), lib) && match lib {
                    Err(e) => r == Err::<InstallationAnalysis, String>(e),
                    Ok(library) => emitted("Copying to library..."@) && exists|
                        a: &str,
                        b: &str,
                        copied: Result<String, String>,
                    |
                        #![trigger call_ensures(copy_archive, (a, b), copied)]
                        a@ == archive_path_spec(archive_path_str) && b@ == downloads@ && call_ensures(
                            copy_archive,
                            (a, b),
                            copied,
                        ) && match copied {
                            Err(e) => r == Err::<InstallationAnalysis, String>(e),
                            Ok(final_path) => install_after_copy(
                                final_path@,
                                library@,
                                emitted,
                                extract,
                                scan,
                                finalize,
                                r,
                            ),
                        },
                },
        };
    if let Ok(downloads) = dl {
        let lib = choose|lib: Result<String, String>|
            #![trigger call_ensures(get_library_dir, (), lib)]
            call_ensures(get_library_dir, (), lib) && match lib {
                Err(e) => r == Err::<InstallationAnalysis, String>(e),
                Ok(library) => emitted("Copying to library..."@) && exists|
                    a: &str,
                    b: &str,
                    copied: Result<String, String>,
                |
                    #![trigger call_ensures(copy_archive, (a, b), copied)]
                    a@ == archive_path_spec(archive_path_str) && b@ == downloads@ && call_ensures(
                        copy_archive,
                        (a, b),
                        copied,
                    ) && match copied {
                        Err(e) => r == Err::<InstallationAnalysis, String>(e),
                        Ok(final_path) => install_after_copy(
                            final_path@,
                            library@,
                            emitted,
                            extract,
                            scan,
                            finalize,
                            r,
                        ),
                    },
            };
        if let Ok(library) = lib {
            assert(emitted("Copying to library..."@));
            let (a, b, copied) = choose|a: &str, b: &str, copied: Result<String, String>|
                #![trigger call_ensures(copy_archive, (a, b), copied)]
                a@ == archive_path_spec(archive_path_str) && b@ == downloads@ && call_ensures(
                    copy_archive,
                    (a, b),
                    copied,
                ) && match copied {
                    Err(e) => r == Err::<InstallationAnalysis, String>(e),
                    Ok(final_path) => install_after_copy(
                        final_path@,
                        library@,
                        emitted,
                        extract,
                        scan,
                        finalize,
                        r,
                    ),
                };
            if let Ok(final_path) = copied {
                lemma_install_after_copy_weaken(final_path@, library@, emitted, emitted2, extract, scan, finalize, r);
            }
        }
    }
}

proof fn lemma_install_after_copy_weaken<X, S, F>(
    final_path: Seq<char>,
    library_dir: Seq<char>,
    emitted: spec_fn(Seq<char>) -> bool,
    emitted2: spec_fn(Seq<char>) -> bool,
    extract: X,
    scan: S,
    finalize: F,
    r: Result<InstallationAnalysis, String>,
)
    where
        X: FnOnce(&str, &str) -> Result<(), String>,
        S: FnOnce(&str) -> Result<(Vec<String>, Vec<String>), String>,
        F: FnOnce(String, Vec<String>, bool) -> Result<InstallationAnalysis, String>,
    requires
        install_after_copy(final_path, library_dir, emitted, extract, scan, finalize, r),
        forall|s: Seq<char>| #[trigger] emitted(s) ==> emitted2(s),
    ensures
        install_after_copy(final_path, library_dir, emitted2, extract, scan, finalize, r),
{
    if let Some(lib_id) = library_folder_spec(final_path) {
        let lib_mod = path_join(library_dir, lib_id);
        let (x, y, extracted) = choose|x: &str, y: &str, extracted: Result<(), String>|
            #![trigger call_ensures(extract, (x, y), extracted)]
            x@ == final_path && y@ == lib_mod && call_ensures(extract, (x, y), extracted) && match extracted {
                Err(e) => r == Err::<InstallationAnalysis, String>(e),
                Ok(()) => emitted("Analyzing structure..."@) && exists|
                    z: &str,
                    scanned: Result<(Vec<String>, Vec<String>), String>,
                |
                    #![trigger call_ensures(scan, (z,), scanned)]
                    z@ == lib_mod && call_ensures(scan, (z,), scanned) && match scanned {
                        Err(e) => r == Err::<InstallationAnalysis, String>(e),
                        Ok((folders, installable)) => exists|
                            decision: ArchiveDecision,
                            lid: String,
                            fap: String,
                        |
                            #![trigger decided(installable@, folders@, lib_id, final_path, decision), lid@, fap@]
                            lid@ == lib_id && fap@ == final_path && decided(
                                installable@,
                                folders@,
                                lib_id,
                                final_path,
                                decision,
                            ) && decision_outcome(lid, decision, fap, emitted, finalize, r),
                    },
            };
        if extracted is Ok {
            assert(emitted("Analyzing structure..."@));
            let (z, scanned) = choose|z: &str, scanned: Result<(Vec<String>, Vec<String>), String>|
                #![trigger call_ensures(scan, (z,), scanned)]
                z@ == lib_mod && call_ensures(scan, (z,), scanned) && match scanned {
                    Err(e) => r == Err::<InstallationAnalysis, String>(e),
                    Ok((folders, installable)) => exists|
                        decision: ArchiveDecision,
                        lid: String,
                        fap: String,
                    |
                        #![trigger decided(installable@, folders@, lib_id, final_path, decision), lid@, fap@]
                        lid@ == lib_id && fap@ == final_path && decided(
                            installable@,
                            folders@,
                            lib_id,
                            final_path,
                            decision,
                        ) && decision_outcome(lid, decision, fap, emitted, finalize, r),
                };
            if let Ok((folders, installable)) = scanned {
                let (decision, lid, fap) = choose|decision: ArchiveDecision, lid: String, fap: String|
                    #![trigger decided(installable@, folders@, lib_id, final_path, decision), lid@, fap@]
                    lid@ == lib_id && fap@ == final_path && decided(
                        installable@,
                        folders@,
                        lib_id,
                        final_path,
                        decision,
                    ) && decision_outcome(lid, decision, fap, emitted, finalize, r);
                if decision is WaitForSelection {
                    assert(emitted("Waiting for selection..."@));
                } else {
                    assert(emitted("Finalizing..."@));
                }
                assert(decision_outcome(lid, decision, fap, emitted2, finalize, r));
            }
        }
    }
}

/// Installs a mod from an archive, reporting each step as an event of
/// install `download_id` through `emit_event` (see
/// `install_mod_from_archive_with`). The extraction closure reports its own
/// percentages.
pub fn install_mod_from_archive_with_progress_events<D, B, Ev, C, X, S, F>(
    archive_path_str: String,
    download_id: String,
    get_downloads_dir: D,
    get_library_dir: B,
    emit_event: Ev,
    copy_archive_to_downloads: C,
    extract_archive_if_needed: X,
    scan_library_mod_path: S,
    finalize_installation: F,
) -> (r: Result<InstallationAnalysis, String>)
    where
        D: FnOnce() -> Result<String, String>,
        B: FnOnce() -> Result<String, String>,
        Ev: Fn(InstallProgressPayload),
        C: FnOnce(&str, &str) -> Result<String, String>,
        X: FnOnce(&str, &str) -> Result<(), String>,
        S: FnOnce(&str) -> Result<(Vec<String>, Vec<String>), String>,
        F: FnOnce(String, Vec<String>, bool) -> Result<InstallationAnalysis, String>,
    requires
        call_requires(get_downloads_dir, ()),
        call_requires(get_library_dir, ()),
        forall|p: InstallProgressPayload| call_requires(emit_event, (p,)),
        forall|a: &str, b: &str| call_requires(copy_archive_to_downloads, (a, b)),
        forall|a: &str, b: &str| call_requires(extract_archive_if_needed, (a, b)),
        forall|a: &str| call_requires(scan_library_mod_path, (a,)),
        forall|a: String, b: Vec<String>, c: bool| call_requires(finalize_installation, (a, b, c)),
    ensures
        archive_install_outcome(
            archive_path_str@,
            |step: Seq<char>| step_event_emitted(&emit_event, download_id@, step),
            get_downloads_dir,
            get_library_dir,
            copy_archive_to_downloads,
            extract_archive_if_needed,
            scan_library_mod_path,
            finalize_installation,
            r,
        ),
{
    let ghost id = download_id@;
    let ghost path = archive_path_str@;
    let emit_progress = |step: &str|
        ensures
            step_event_emitted(&emit_event, download_id@, step@),
        { emit_install_step_with(download_id.as_str(), step, &emit_event) };
    let r = install_mod_from_archive_with(
        archive_path_str,
        get_downloads_dir,
        get_library_dir,
        emit_progress,
        copy_archive_to_downloads,
        extract_archive_if_needed,
        scan_library_mod_path,
        finalize_installation,
    );
    proof {
        let e1 = |step: Seq<char>| emitted_by(emit_progress, step);
        let e2 = |step: Seq<char>| step_event_emitted(&emit_event, id, step);
        assert forall|s: Seq<char>| #[trigger] e1(s) implies e2(s) by {
            let a = choose|a: &str| #![trigger call_ensures(emit_progress, (a,), ())] a@ == s && call_ensures(emit_progress, (a,), ());
        }
        lemma_archive_install_weaken(
            path,
            e1,
            e2,
            get_downloads_dir,
            get_library_dir,
            copy_archive_to_downloads,
            extract_archive_if_needed,
            scan_library_mod_path,
            finalize_installation,
            r,
        );
    }
    r
}

} // verus!
