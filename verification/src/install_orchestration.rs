//! Progress events of an install, and carrying out the archive decision.
use vstd::prelude::*;
use crate::install_planning::ArchiveDecision;
use crate::models::{InstallProgressPayload, InstallationAnalysis};
use crate::text::{concat3, decimal, owned, u64_to_string};

verus! {

/// A progress event of install `id`.
pub fn make_progress_payload(id: &str, step: String, progress: Option<u64>) -> (r: InstallProgressPayload)
    ensures
        r.id@ == id@,
        r.step == step,
        r.progress == progress,
{
    InstallProgressPayload { id: owned(id), step, progress }
}

pub open spec fn extraction_step_spec(pct: u64) -> Seq<char> {
    "Extracting: "@ + decimal(pct as nat) + "%"@
}

/// `Extracting: <pct>%`.
pub fn extraction_progress_step(pct: u64) -> (r: String)
    ensures
        r@ == extraction_step_spec(pct),
{
    let digits = u64_to_string(pct);
    concat3("Extracting: ", digits.as_str(), "%")
}

/// `b` is `a` with its active archive path set to `path`.
pub open spec fn with_active_archive(a: InstallationAnalysis, b: InstallationAnalysis, path: String) -> bool {
    &&& b.successes == a.successes
    &&& b.conflicts == a.conflicts
    &&& b.messy_archive_path == a.messy_archive_path
    &&& b.active_archive_path == Some(path)
    &&& b.selection_needed == a.selection_needed
    &&& b.temp_id == a.temp_id
    &&& b.available_folders == a.available_folders
}

/// What carrying out `decision` gives (see `apply_archive_decision`).
/// `emit(s)` was called with a `s` of text `step`.
pub open spec fn emitted_by<E: FnMut(&str)>(emit: E, step: Seq<char>) -> bool {
    exists|s: &str| #![trigger call_ensures(emit, (s,), ())] s@ == step && call_ensures(emit, (s,), ())
}

/// What carrying out `decision` gives (see `apply_archive_decision`);
/// `emitted` says which progress steps were reported.
pub open spec fn decision_outcome<F>(
    library_id: String,
    decision: ArchiveDecision,
    final_archive_path_str: String,
    emitted: spec_fn(Seq<char>) -> bool,
    finalize: F,
    r: Result<InstallationAnalysis, String>,
) -> bool
    where
        F: FnOnce(String, Vec<String>, bool) -> Result<InstallationAnalysis, String>,
{
    &&& decision matches ArchiveDecision::WaitForSelection(a) ==> {
        &&& r == Ok::<InstallationAnalysis, String>(a)
        &&& emitted("Waiting for selection..."@)
    }
    &&& decision matches ArchiveDecision::Finalize(req) ==> {
        &&& emitted("Finalizing..."@)
        &&& exists|out: Result<InstallationAnalysis, String>|
            call_ensures(finalize, (library_id, req.selected_folders, req.flatten_paths), out)
                && match out {
                Ok(a) => r matches Ok(b) && with_active_archive(a, b, final_archive_path_str),
                Err(e) => r == Err::<InstallationAnalysis, String>(e),
            }
    }
}

/// A selection request is reported with the step `Waiting for selection...`
/// and returned as it is. A finalize request is reported with `Finalizing...`
/// and handed to `finalize` with the library id; its error is returned, its
/// analysis is returned with the archive path set.
pub fn apply_archive_decision<F>(
    library_id: String,
    decision: ArchiveDecision,
    final_archive_path_str: String,
    mut emit_progress: impl FnMut(&str),
    finalize: F,
) -> (r: Result<InstallationAnalysis, String>)
    where
        F: FnOnce(String, Vec<String>, bool) -> Result<InstallationAnalysis, String>,
    requires
        forall|s: &str| call_requires(emit_progress, (s,)),
        decision matches ArchiveDecision::Finalize(req) ==> call_requires(
            finalize,
            (library_id, req.selected_folders, req.flatten_paths),
        ),
    ensures
        decision_outcome(
            library_id,
            decision,
            final_archive_path_str,
            |step: Seq<char>| emitted_by(emit_progress, step),
            finalize,
            r,
        ),
{
    match decision {
        ArchiveDecision::WaitForSelection(analysis) => {
            let step = "Waiting for selection...";
            emit_progress(step);
            Ok(analysis)
        },
        ArchiveDecision::Finalize(req) => {
            let step = "Finalizing...";
            emit_progress(step);
            let out = finalize(library_id, req.selected_folders, req.flatten_paths);
            match out {
                Ok(mut analysis) => {
                    analysis.active_archive_path = Some(final_archive_path_str);
                    Ok(analysis)
                },
                Err(e) => Err(e),
            }
        },
    }
}

} // verus!
