//! Install planning: what to do after an archive was unpacked, and where each
//! mod found in it goes.
use vstd::prelude::*;
use crate::models::{first_index, lemma_first_index_is, lemma_first_index_none, InstallationAnalysis};
use crate::paths::{join_path, path_join};
use crate::text::{owned, str_eq};

verus! {

/// The folders to install from an unpacked archive, and whether nested mod
/// roots are searched for.
#[derive(Debug, Clone, PartialEq, Eq)]
pub struct FinalizeRequest {
    pub selected_folders: Vec<String>,
    pub flatten_paths: bool,
}

/// Either ask the user to pick folders, or install right away.
pub enum ArchiveDecision {
    WaitForSelection(InstallationAnalysis),
    Finalize(FinalizeRequest),
}

/// A folder about to be deployed into the mods folder.
#[derive(Debug, Clone)]
pub struct DeployCandidate {
    pub source: String,
    pub dest_name: String,
    pub mod_id: Option<String>,
    pub dest_exists: bool,
}

/// What to do with one deploy candidate.
#[derive(Debug, Clone, PartialEq, Eq)]
pub enum PlannedInstallAction {
    StageConflict {
        source: String,
        staged_path: String,
        new_mod_name: String,
        old_mod_folder_name: String,
    },
    DeployDirect { source: String, final_dest_path: String, dest_name: String },
}

pub open spec fn views(s: Seq<String>) -> Seq<Seq<char>> {
    Seq::new(s.len(), |i: int| s[i]@)
}

/// A copy of the strings of `s`.
pub fn copy_strings(s: &[String]) -> (r: Vec<String>)
    ensures
        views(r@) == views(s@),
{
    let mut r: Vec<String> = Vec::new();
    let mut i: usize = 0;
    while i < s.len()
        invariant
            i <= s@.len(),
            r@.len() == i,
            forall|k: int| 0 <= k < i ==> r@[k]@ == s@[k]@,
        decreases s@.len() - i,
    {
        r.push(owned(s[i].as_str()));
        i = i + 1;
    }
    assert(views(r@) =~= views(s@));
    r
}

/// `a` asks for a selection among `folders`, for the archive at `archive`
/// unpacked under `library_id`.
pub open spec fn is_selection_request(
    a: InstallationAnalysis,
    folders: Seq<String>,
    library_id: Seq<char>,
    archive: Seq<char>,
) -> bool {
    &&& a.successes@.len() == 0
    &&& a.conflicts@.len() == 0
    &&& a.messy_archive_path.is_none()
    &&& a.active_archive_path matches Some(p) && p@ == archive
    &&& a.selection_needed
    &&& a.temp_id matches Some(t) && t@ == library_id
    &&& a.available_folders matches Some(f) && views(f@) == views(folders)
}

fn selection_request(folders: &[String], library_id: &str, archive: &str) -> (r: InstallationAnalysis)
    ensures
        is_selection_request(r, folders@, library_id@, archive@),
{
    InstallationAnalysis {
        successes: Vec::new(),
        conflicts: Vec::new(),
        messy_archive_path: None,
        active_archive_path: Some(owned(archive)),
        selection_needed: true,
        temp_id: Some(owned(library_id)),
        available_folders: Some(copy_strings(folders)),
    }
}

/// `r` is the decision for an unpacked archive with these mod roots and
/// top-level folders (see `decide_archive_flow`).
pub open spec fn decided(
    installable_paths: Seq<String>,
    folder_names: Seq<String>,
    library_id: Seq<char>,
    active_archive_path: Seq<char>,
    r: ArchiveDecision,
) -> bool {
    &&& installable_paths.len() > 1 ==> (r matches ArchiveDecision::WaitForSelection(a)
        && is_selection_request(a, installable_paths, library_id, active_archive_path))
    &&& installable_paths.len() == 1 ==> (r matches ArchiveDecision::Finalize(req)
        && views(req.selected_folders@) == seq![installable_paths[0]@] && req.flatten_paths)
    &&& installable_paths.len() == 0 && folder_names.len() > 1 ==> (
    r matches ArchiveDecision::WaitForSelection(a) && is_selection_request(
        a,
        folder_names,
        library_id,
        active_archive_path,
    ))
    &&& installable_paths.len() == 0 && folder_names.len() <= 1 ==> (
    r matches ArchiveDecision::Finalize(req) && req.selected_folders@.len() == 0
        && !req.flatten_paths)
}

/// Several mod roots found: the user picks among them. Exactly one: install
/// it, searching nested roots. None but several top-level folders: the user
/// picks among those. Otherwise install everything as it is.
pub fn decide_archive_flow(
    installable_paths: &[String],
    folder_names: &[String],
    library_id: &str,
    active_archive_path: &str,
) -> (r: ArchiveDecision)
    ensures
        decided(installable_paths@, folder_names@, library_id@, active_archive_path@, r),
{
    if installable_paths.len() > 1 {
        return ArchiveDecision::WaitForSelection(
            selection_request(installable_paths, library_id, active_archive_path),
        );
    }
    if installable_paths.len() == 1 {
        let mut selected: Vec<String> = Vec::new();
        selected.push(owned(installable_paths[0].as_str()));
        assert(views(selected@) =~= seq![installable_paths@[0]@]);
        return ArchiveDecision::Finalize(
            FinalizeRequest { selected_folders: selected, flatten_paths: true },
        );
    }
    if folder_names.len() > 1 {
        return ArchiveDecision::WaitForSelection(
            selection_request(folder_names, library_id, active_archive_path),
        );
    }
    ArchiveDecision::Finalize(FinalizeRequest { selected_folders: Vec::new(), flatten_paths: false })
}

pub open spec fn pair_keys(pairs: Seq<(String, String)>) -> Seq<Seq<char>> {
    Seq::new(pairs.len(), |i: int| pairs[i].0@)
}

/// The folder recorded for `mod_id` in the installed-mods table (the first
/// entry with that id).
pub open spec fn installed_folder(pairs: Seq<(String, String)>, mod_id: Seq<char>) -> Option<Seq<char>> {
    let i = first_index(pair_keys(pairs), mod_id);
    if i >= 0 {
        Some(pairs[i].1@)
    } else {
        None
    }
}

fn find_installed<'a>(pairs: &'a Vec<(String, String)>, mod_id: &str) -> (r: Option<&'a String>)
    ensures
        match r {
            Some(s) => installed_folder(pairs@, mod_id@) == Some(s@),
            None => installed_folder(pairs@, mod_id@).is_none(),
        },
{
    let ghost keys = pair_keys(pairs@);
    let mut i: usize = 0;
    while i < pairs.len()
        invariant
            i <= pairs@.len(),
            keys == pair_keys(pairs@),
            forall|j: int| 0 <= j < i ==> keys[j] != mod_id@,
        decreases pairs@.len() - i,
    {
        if str_eq(pairs[i].0.as_str(), mod_id) {
            proof {
                lemma_first_index_is(keys, mod_id@, i as int);
            }
            return Some(&pairs[i].1);
        }
        i = i + 1;
    }
    proof {
        lemma_first_index_none(keys, mod_id@);
    }
    None
}

/// The action planned for one candidate: a candidate whose mod id is already
/// installed is staged as a conflict with that installed folder; else one
/// whose destination folder exists is staged as a conflict with itself; else
/// it is deployed straight to `<mods>/<dest_name>`.
pub open spec fn planned_action(
    c: DeployCandidate,
    installed: Seq<(String, String)>,
    mods_path: Seq<char>,
    staging: Seq<char>,
    a: PlannedInstallAction,
) -> bool {
    let by_id = match c.mod_id {
        Some(id) => installed_folder(installed, id@),
        None => None,
    };
    match by_id {
        Some(old) => a matches PlannedInstallAction::StageConflict {
            source,
            staged_path,
            new_mod_name,
            old_mod_folder_name,
        } && source == c.source && staged_path@ == path_join(staging, c.dest_name@)
            && new_mod_name == c.dest_name && old_mod_folder_name@ == old,
        None => if c.dest_exists {
            a matches PlannedInstallAction::StageConflict {
                source,
                staged_path,
                new_mod_name,
                old_mod_folder_name,
            } && source == c.source && staged_path@ == path_join(staging, c.dest_name@)
                && new_mod_name@ == c.dest_name@ && old_mod_folder_name@ == c.dest_name@
        } else {
            a matches PlannedInstallAction::DeployDirect { source, final_dest_path, dest_name }
                && source == c.source && final_dest_path@ == path_join(mods_path, c.dest_name@)
                && dest_name == c.dest_name
        },
    }
}

/// One planned action per candidate, in order.
pub fn plan_install_actions(
    candidates: Vec<DeployCandidate>,
    installed_mods_by_id: &Vec<(String, String)>,
    mods_path: &str,
    conflict_staging_path: &str,
) -> (r: Vec<PlannedInstallAction>)
    ensures
        r@.len() == candidates@.len(),
        forall|i: int|
            0 <= i < r@.len() ==> planned_action(
                #[trigger] candidates@[i],
                installed_mods_by_id@,
                mods_path@,
                conflict_staging_path@,
                r@[i],
            ),
{
    let ghost orig = candidates@;
    let mut rest = candidates;
    let mut actions: Vec<PlannedInstallAction> = Vec::new();
    while rest.len() > 0
        invariant
            actions@.len() <= orig.len(),
            rest@ == orig.subrange(actions@.len() as int, orig.len() as int),
            forall|i: int|
                0 <= i < actions@.len() ==> planned_action(
                    #[trigger] orig[i],
                    installed_mods_by_id@,
                    mods_path@,
                    conflict_staging_path@,
                    actions@[i],
                ),
        decreases rest.len(),
    {
        let ghost done = actions@.len() as int;
        let candidate = rest.remove(0);
        assert(candidate == orig[done]);
        let old_folder = match &candidate.mod_id {
            Some(id) => find_installed(installed_mods_by_id, id.as_str()),
            None => None,
        };
        let action = match old_folder {
            Some(old) => PlannedInstallAction::StageConflict {
                staged_path: join_path(conflict_staging_path, candidate.dest_name.as_str()),
                source: candidate.source,
                new_mod_name: candidate.dest_name,
                old_mod_folder_name: owned(old.as_str()),
            },
            None => if candidate.dest_exists {
                PlannedInstallAction::StageConflict {
                    staged_path: join_path(conflict_staging_path, candidate.dest_name.as_str()),
                    source: candidate.source,
                    new_mod_name: owned(candidate.dest_name.as_str()),
                    old_mod_folder_name: candidate.dest_name,
                }
            } else {
                PlannedInstallAction::DeployDirect {
                    final_dest_path: join_path(mods_path, candidate.dest_name.as_str()),
                    source: candidate.source,
                    dest_name: candidate.dest_name,
                }
            },
        };
        actions.push(action);
        assert(rest@ =~= orig.subrange(actions@.len() as int, orig.len() as int));
    }
    actions
}

} // verus!
