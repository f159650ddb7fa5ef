//! What installing and listing mods promise, stated over what each operation
//! is given and what it gives back: conflicts are staged in the staging
//! folder, the game's data folders and files mark a mod root, a listed row
//! shows exactly what the mod's `mod_info.json` holds, and writing install
//! details always records the values given.
use vstd::prelude::*;
use crate::install_planning::{installed_folder, planned_action, DeployCandidate, PlannedInstallAction};
use crate::install_rendering::{local_info_from, named_entries, render_order, rendered, renders};
use crate::ordering::data_mods;
use crate::install_scan::{
    any_marks_mod_root, is_game_file_extension, is_game_structure_folder, marks_mod_root, root_candidate,
    scanned, ScanEntry, MAX_SCAN_PATH_CHARS,
};
use crate::laws::{lemma_scan_stops_at_mod_root, listing_is_function};
use crate::info_ops::fields_with_input;
use crate::models::{
    data_index, entry_name, first_index, lemma_first_index_is, lemma_first_index_spec, prop_value,
    priority_key, EnsureModInfoInput, ModEntry, ModInfo, ModRenderData, SettingsData,
};
use crate::install_planning::pair_keys;
use crate::sorting::{lemma_stable_sort_sorted_permutation, stable_sort};
use crate::text::unicode_upper;
use crate::paths::{extension_spec, file_name_spec, path_join};
use crate::text::eq_ignore_ascii_case_spec;

verus! {

/// The folder installed under the candidate's mod id, if it has one.
pub open spec fn installed_for(c: DeployCandidate, installed: Seq<(String, String)>) -> Option<Seq<char>> {
    match c.mod_id {
        Some(id) => installed_folder(installed, id@),
        None => None,
    }
}

/// A candidate clashes with what is installed: its mod id is installed
/// already, or its destination folder exists.
pub open spec fn clashes(c: DeployCandidate, installed: Seq<(String, String)>) -> bool {
    c.dest_exists || installed_for(c, installed).is_some()
}

/// Planning stages every clashing candidate, and only those, under its own
/// name in the conflict staging folder, whatever made it clash; every other
/// candidate goes straight to `<mods>/<dest_name>`. Each action keeps the
/// candidate's source and name, and a clash over an existing folder of the
/// same name keeps that folder as the one replaced.
pub proof fn lemma_conflicts_are_staged_in_staging(
    candidates: Seq<DeployCandidate>,
    installed: Seq<(String, String)>,
    mods_path: Seq<char>,
    staging: Seq<char>,
    actions: Seq<PlannedInstallAction>,
)
    requires
        actions.len() == candidates.len(),
        forall|i: int|
            0 <= i < actions.len() ==> planned_action(
                #[trigger] candidates[i],
                installed,
                mods_path,
                staging,
                actions[i],
            ),
    ensures
        forall|i: int|
            0 <= i < actions.len() ==> match #[trigger] actions[i] {
                PlannedInstallAction::StageConflict {
                    source,
                    staged_path,
                    new_mod_name,
                    old_mod_folder_name,
                } => {
                    &&& clashes(candidates[i], installed)
                    &&& staged_path@ == path_join(staging, candidates[i].dest_name@)
                    &&& source == candidates[i].source
                    &&& new_mod_name@ == candidates[i].dest_name@
                    &&& installed_for(candidates[i], installed) is Some ==> Some(old_mod_folder_name@)
                        == installed_for(candidates[i], installed)
                    &&& installed_for(candidates[i], installed) is None ==> old_mod_folder_name@
                        == candidates[i].dest_name@
                },
                PlannedInstallAction::DeployDirect { source, final_dest_path, dest_name } => {
                    &&& !clashes(candidates[i], installed)
                    &&& final_dest_path@ == path_join(mods_path, candidates[i].dest_name@)
                    &&& source == candidates[i].source
                    &&& dest_name == candidates[i].dest_name
                },
            },
{
    assert forall|i: int| 0 <= i < actions.len() implies match #[trigger] actions[i] {
        PlannedInstallAction::StageConflict {
            source,
            staged_path,
            new_mod_name,
            old_mod_folder_name,
        } => {
            &&& clashes(candidates[i], installed)
            &&& staged_path@ == path_join(staging, candidates[i].dest_name@)
            &&& source == candidates[i].source
            &&& new_mod_name@ == candidates[i].dest_name@
            &&& installed_for(candidates[i], installed) is Some ==> Some(old_mod_folder_name@)
                == installed_for(candidates[i], installed)
            &&& installed_for(candidates[i], installed) is None ==> old_mod_folder_name@
                == candidates[i].dest_name@
        },
        PlannedInstallAction::DeployDirect { source, final_dest_path, dest_name } => {
            &&& !clashes(candidates[i], installed)
            &&& final_dest_path@ == path_join(mods_path, candidates[i].dest_name@)
            &&& source == candidates[i].source
            &&& dest_name == candidates[i].dest_name
        },
    } by {
        assert(planned_action(candidates[i], installed, mods_path, staging, actions[i]));
    }
}

/// A name equal, ignoring ASCII case, to one of the game's data folders.
pub open spec fn names_game_data_folder(n: Seq<char>) -> bool {
    let listed = seq![
        "AUDIO"@, "FONTS"@, "GLOBALS"@, "INPUT"@, "LANGUAGE"@, "MATERIALS"@, "METADATA"@,
        "MODELS"@, "MUSIC"@, "PIPELINES"@, "SCENES"@, "SHADERS"@, "TEXTURES"@, "TPFSDICT"@, "UI"@,
    ];
    exists|k: int| 0 <= k < listed.len() && eq_ignore_ascii_case_spec(n, #[trigger] listed[k])
}

/// An extension equal, ignoring ASCII case, to one of the game's data file
/// extensions.
pub open spec fn names_game_data_extension(x: Seq<char>) -> bool {
    let listed = seq!["exml"@, "mbin"@, "dds"@, "mxml"@];
    exists|k: int| 0 <= k < listed.len() && eq_ignore_ascii_case_spec(x, #[trigger] listed[k])
}

/// A folder marks its parent as a mod root exactly when its name is one of
/// the game's data folders AUDIO, FONTS, GLOBALS, INPUT, LANGUAGE,
/// MATERIALS, METADATA, MODELS, MUSIC, PIPELINES, SCENES, SHADERS, TEXTURES,
/// TPFSDICT, UI (any ASCII case); a file marks it exactly when its extension
/// is exml, mbin, dds or mxml (any ASCII case).
pub proof fn lemma_game_data_marks_mod_root(e: ScanEntry)
    ensures
        e.is_dir ==> (marks_mod_root(e) <==> (file_name_spec(e.path@) matches Some(n)
            && names_game_data_folder(n))),
        !e.is_dir ==> (marks_mod_root(e) <==> (extension_spec(e.path@) matches Some(x)
            && names_game_data_extension(x))),
{
    let folders = seq![
        "AUDIO"@, "FONTS"@, "GLOBALS"@, "INPUT"@, "LANGUAGE"@, "MATERIALS"@, "METADATA"@,
        "MODELS"@, "MUSIC"@, "PIPELINES"@, "SCENES"@, "SHADERS"@, "TEXTURES"@, "TPFSDICT"@, "UI"@,
    ];
    let exts = seq!["exml"@, "mbin"@, "dds"@, "mxml"@];
    if let Some(n) = file_name_spec(e.path@) {
        if is_game_structure_folder(n) {
            if eq_ignore_ascii_case_spec(n, "AUDIO"@) { assert(folders[0] == "AUDIO"@); }
            if eq_ignore_ascii_case_spec(n, "FONTS"@) { assert(folders[1] == "FONTS"@); }
            if eq_ignore_ascii_case_spec(n, "GLOBALS"@) { assert(folders[2] == "GLOBALS"@); }
            if eq_ignore_ascii_case_spec(n, "INPUT"@) { assert(folders[3] == "INPUT"@); }
            if eq_ignore_ascii_case_spec(n, "LANGUAGE"@) { assert(folders[4] == "LANGUAGE"@); }
            if eq_ignore_ascii_case_spec(n, "MATERIALS"@) { assert(folders[5] == "MATERIALS"@); }
            if eq_ignore_ascii_case_spec(n, "METADATA"@) { assert(folders[6] == "METADATA"@); }
            if eq_ignore_ascii_case_spec(n, "MODELS"@) { assert(folders[7] == "MODELS"@); }
            if eq_ignore_ascii_case_spec(n, "MUSIC"@) { assert(folders[8] == "MUSIC"@); }
            if eq_ignore_ascii_case_spec(n, "PIPELINES"@) { assert(folders[9] == "PIPELINES"@); }
            if eq_ignore_ascii_case_spec(n, "SCENES"@) { assert(folders[10] == "SCENES"@); }
            if eq_ignore_ascii_case_spec(n, "SHADERS"@) { assert(folders[11] == "SHADERS"@); }
            if eq_ignore_ascii_case_spec(n, "TEXTURES"@) { assert(folders[12] == "TEXTURES"@); }
            if eq_ignore_ascii_case_spec(n, "TPFSDICT"@) { assert(folders[13] == "TPFSDICT"@); }
            if eq_ignore_ascii_case_spec(n, "UI"@) { assert(folders[14] == "UI"@); }
        }
        if names_game_data_folder(n) {
            let k = choose|k: int| 0 <= k < folders.len() && eq_ignore_ascii_case_spec(n, #[trigger] folders[k]);
            assert(folders[k] == folders[k]);
        }
    }
    if let Some(x) = extension_spec(e.path@) {
        if is_game_file_extension(x) {
            if eq_ignore_ascii_case_spec(x, "exml"@) { assert(exts[0] == "exml"@); }
            if eq_ignore_ascii_case_spec(x, "mbin"@) { assert(exts[1] == "mbin"@); }
            if eq_ignore_ascii_case_spec(x, "dds"@) { assert(exts[2] == "dds"@); }
            if eq_ignore_ascii_case_spec(x, "mxml"@) { assert(exts[3] == "mxml"@); }
        }
        if names_game_data_extension(x) {
            let k = choose|k: int| 0 <= k < exts.len() && eq_ignore_ascii_case_spec(x, #[trigger] exts[k]);
            assert(exts[k] == exts[k]);
        }
    }
}

/// A folder that holds one of the game's data folders (see
/// `names_game_data_folder`), such as `MODELS`, is found as a mod root:
/// scanning it gives its own candidate alone and does not descend.
pub proof fn lemma_folder_with_game_data_is_found<R: Fn(&str) -> Option<Vec<ScanEntry>>>(
    dir: Seq<char>,
    base_dir: Seq<char>,
    read_dir: R,
    entries: Vec<ScanEntry>,
    i: int,
    out: Seq<Seq<char>>,
)
    requires
        listing_is_function(read_dir),
        dir.len() <= MAX_SCAN_PATH_CHARS,
        exists|p: &str| p@ == dir && #[trigger] call_ensures(read_dir, (p,), Some(entries)),
        0 <= i < entries@.len(),
        entries@[i].is_dir,
        file_name_spec(entries@[i].path@) matches Some(n) && names_game_data_folder(n),
        scanned(dir, base_dir, read_dir, out),
    ensures
        out == match root_candidate(dir, base_dir) {
            Some(c) => seq![c],
            None => Seq::<Seq<char>>::empty(),
        },
{
    lemma_game_data_marks_mod_root(entries@[i]);
    assert(any_marks_mod_root(entries@));
    lemma_scan_stops_at_mod_root(dir, base_dir, read_dir, Some(entries), out);
}

/// The row shows exactly what the `mod_info.json` of its folder gave: no
/// info when none was read, else the folder's name with the mod id, file
/// id, version and install source as read, each in its own field.
pub open spec fn shows_mod_info<F: Fn(&str) -> Option<ModInfo>>(
    row: ModRenderData,
    mods_path: Seq<char>,
    read_mod_info: F,
) -> bool {
    exists|p: &str, info: Option<ModInfo>|
        #![trigger call_ensures(read_mod_info, (p,), info)]
        p@ == path_join(mods_path, row.folder_name@) && call_ensures(read_mod_info, (p,), info) && match info {
            None => row.local_info.is_none(),
            Some(mi) => row.local_info matches Some(x) && x.folder_name@ == row.folder_name@
                && x.mod_id == mi.mod_id && x.file_id == mi.file_id && x.version == mi.version
                && x.install_source == mi.install_source,
        }
}

/// Each row of the mod list shows exactly what the `mod_info.json` of its
/// folder holds (see `shows_mod_info`): the file id is shown as the file
/// id, the version as the version, and so on for each field.
pub proof fn lemma_rows_show_mod_info<F: Fn(&str) -> Option<ModInfo>>(
    root: SettingsData,
    real_folders: Seq<(String, String)>,
    mods_path: Seq<char>,
    read_mod_info: F,
    rows: Seq<ModRenderData>,
)
    requires
        rendered(root, real_folders, mods_path, read_mod_info, rows),
    ensures
        forall|i: int| 0 <= i < rows.len() ==> shows_mod_info(#[trigger] rows[i], mods_path, read_mod_info),
{
    assert forall|i: int| 0 <= i < rows.len() implies shows_mod_info(#[trigger] rows[i], mods_path, read_mod_info) by {
        let named = named_entries(data_mods(root));
        let order = render_order(named);
        assert(renders(named[order[i]], real_folders, mods_path, read_mod_info, rows[i]));
        let folder = rows[i].folder_name@;
        let (p, info) = choose|p: &str, info: Option<ModInfo>|
            p@ == path_join(mods_path, folder) && call_ensures(read_mod_info, (p,), info)
                && local_info_from(info, folder, rows[i].local_info);
        assert(call_ensures(read_mod_info, (p,), info));
    }
}

/// The row shows entry `e`: `enabled` exactly when its `Enabled` value is
/// `true`, its parsed priority, and as folder the real folder recorded for
/// its upper-cased `Name` (the first one recorded), or the `Name` itself
/// when no folder is recorded for it.
pub open spec fn shows_entry(row: ModRenderData, e: ModEntry, real_folders: Seq<(String, String)>) -> bool {
    let n = entry_name(e).unwrap();
    &&& entry_name(e).is_some()
    &&& row.enabled == (prop_value(e, "Enabled"@) == Some("true"@))
    &&& row.priority == priority_key(e)
    &&& (exists|j: int| 0 <= j < real_folders.len() && (#[trigger] real_folders[j]).0@ == unicode_upper(n))
        ==> exists|j: int|
        0 <= j < real_folders.len() && (#[trigger] real_folders[j]).0@ == unicode_upper(n)
            && real_folders[j].1@ == row.folder_name@ && forall|k: int|
            0 <= k < j ==> (#[trigger] real_folders[k]).0@ != unicode_upper(n)
    &&& !(exists|j: int| 0 <= j < real_folders.len() && (#[trigger] real_folders[j]).0@ == unicode_upper(n))
        ==> row.folder_name@ == n
}

/// Each row of the mod list shows one named entry of the `Data` list (see
/// `shows_entry`): its `Enabled` flag, its priority, and its real folder.
pub proof fn lemma_rows_show_entries<F: Fn(&str) -> Option<ModInfo>>(
    root: SettingsData,
    real_folders: Seq<(String, String)>,
    mods_path: Seq<char>,
    read_mod_info: F,
    rows: Seq<ModRenderData>,
)
    requires
        rendered(root, real_folders, mods_path, read_mod_info, rows),
    ensures
        forall|i: int|
            0 <= i < rows.len() ==> exists|k: int|
                0 <= k < named_entries(data_mods(root)).len() && shows_entry(
                    #[trigger] rows[i],
                    named_entries(data_mods(root))[k],
                    real_folders,
                ),
{
    broadcast use vstd::seq_lib::group_seq_properties;

    if data_index(root) >= 0 {
        let named = named_entries(data_mods(root));
        let keyed = Seq::new(named.len(), |k: int| (priority_key(named[k]), k));
        let sorted = stable_sort(keyed);
        let order = render_order(named);
        lemma_stable_sort_sorted_permutation(keyed);
        assert forall|i: int| 0 <= i < rows.len() implies exists|k: int|
            0 <= k < named.len() && shows_entry(#[trigger] rows[i], named[k], real_folders) by {
            assert(sorted.to_multiset().count(sorted[i]) > 0);
            assert(keyed.contains(sorted[i]));
            let k = order[i];
            assert(0 <= k < named.len());
            let e = named[k];
            assert(renders(e, real_folders, mods_path, read_mod_info, rows[i]));
            lemma_named_entries_have_names(data_mods(root), k);
            let n = entry_name(e).unwrap();
            let keys = pair_keys(real_folders);
            lemma_first_index_spec(keys, unicode_upper(n));
            let fi = first_index(keys, unicode_upper(n));
            if exists|j: int| 0 <= j < real_folders.len() && (#[trigger] real_folders[j]).0@ == unicode_upper(n) {
                let j = choose|j: int| 0 <= j < real_folders.len() && (#[trigger] real_folders[j]).0@ == unicode_upper(n);
                assert(keys[j] == unicode_upper(n));
                if fi < 0 {
                    lemma_first_index_is_some(keys, unicode_upper(n), j);
                }
                assert(keys[fi] == real_folders[fi].0@);
                assert forall|q: int| 0 <= q < fi implies (#[trigger] real_folders[q]).0@ != unicode_upper(n) by {
                    assert(keys[q] == real_folders[q].0@);
                }
            } else {
                if fi >= 0 {
                    assert(keys[fi] == real_folders[fi].0@);
                }
            }
            assert(shows_entry(rows[i], e, real_folders));
        }
    } else {
        assert(rows.len() == 0);
    }
}

/// Every entry kept by `named_entries` has a `Name`.
proof fn lemma_named_entries_have_names(mods: Seq<ModEntry>, k: int)
    requires
        0 <= k < named_entries(mods).len(),
    ensures
        entry_name(named_entries(mods)[k]).is_some(),
    decreases mods.len(),
{
    if mods.len() > 0 {
        let rest = named_entries(mods.drop_last());
        if k < rest.len() {
            lemma_named_entries_have_names(mods.drop_last(), k);
        }
    }
}

/// Some position of `names` holds `key`, so it has a first one.
proof fn lemma_first_index_is_some(names: Seq<Seq<char>>, key: Seq<char>, j: int)
    requires
        0 <= j < names.len(),
        names[j] == key,
    ensures
        first_index(names, key) >= 0,
    decreases j,
{
    if forall|q: int| 0 <= q < j ==> names[q] != key {
        lemma_first_index_is(names, key, j);
    } else {
        let q = choose|q: int| 0 <= q < j && names[q] == key;
        lemma_first_index_is_some(names, key, q);
    }
}

/// Writing install details into a `mod_info.json` always records the values
/// given: `modId`, `fileId` and `version` take the input's value whenever it
/// is not empty, whatever was there before, and are kept as they were when
/// it is empty; `installSource` always takes the input's value; every other
/// field is kept as it was.
pub proof fn lemma_input_fields_are_recorded(
    fields: Map<Seq<char>, Option<Seq<char>>>,
    input: EnsureModInfoInput,
)
    ensures
        ({
            let out = fields_with_input(fields, input);
            &&& input.mod_id@.len() > 0 ==> out.contains_key("modId"@) && out["modId"@] == Some(input.mod_id@)
            &&& input.mod_id@.len() == 0 ==> out.contains_key("modId"@) == fields.contains_key("modId"@)
                && (fields.contains_key("modId"@) ==> out["modId"@] == fields["modId"@])
            &&& input.file_id@.len() > 0 ==> out.contains_key("fileId"@) && out["fileId"@] == Some(input.file_id@)
            &&& input.file_id@.len() == 0 ==> out.contains_key("fileId"@) == fields.contains_key("fileId"@)
                && (fields.contains_key("fileId"@) ==> out["fileId"@] == fields["fileId"@])
            &&& input.version@.len() > 0 ==> out.contains_key("version"@) && out["version"@] == Some(input.version@)
            &&& input.version@.len() == 0 ==> out.contains_key("version"@) == fields.contains_key("version"@)
                && (fields.contains_key("version"@) ==> out["version"@] == fields["version"@])
            &&& out.contains_key("installSource"@) && out["installSource"@] == Some(input.install_source@)
            &&& forall|k: Seq<char>|
                k != "modId"@ && k != "fileId"@ && k != "version"@ && k != "installSource"@ ==> (
                #[trigger] out.contains_key(k) == fields.contains_key(k) && (fields.contains_key(k)
                    ==> out[k] == fields[k]))
        }),
{
    reveal_strlit("modId");
    reveal_strlit("fileId");
    reveal_strlit("version");
    reveal_strlit("installSource");
    assert("modId"@.len() == 5 && "fileId"@.len() == 6 && "version"@.len() == 7 && "installSource"@.len()
        == 13);
}

} // verus!
