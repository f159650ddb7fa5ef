//! What holds of the mod list across edits and of the progress reported:
//! a deleted mod is gone and the rest stay ordered, deleting or cleaning out
//! orphans a second time changes nothing, a reorder keeps each mod once, the
//! rows shown follow priority, deployed folder names never clash, and
//! percentages stay within 0..=100.
use vstd::prelude::*;
use crate::install_rendering::{
    cleaned_orphans, entries_with_folder, folder_key, in_set, named_entries, render_order, rendered,
    renders,
};
use crate::models::{
    data_index, entry_name, name_or_empty, prop_index, prop_names, priority_key, top_names, ModEntry,
    ModInfo, ModRenderData, SettingsData,
};
use crate::ordering::{
    data_mods, deleted_mod, delete_order, entries_by_name, keyed_by_priority, kept_after_delete,
    only_data_mods_changed, reorder_result, reorder_state, renumbered, upper_names,
};
use crate::install_scan::{
    add_sources_spec, any_marks_mod_root, build_ops_spec, item_sources, name_in_use, push_unique_spec,
    root_candidate, scanned, subfolders, ScanEntry, SourceProbe, MAX_SCAN_PATH_CHARS,
};
use crate::sorting::{keys_sorted, lemma_stable_sort_sorted_permutation, sorted_insert, stable_sort};
use crate::text::{decimal, eq_ignore_ascii_case_spec};

verus! {

proof fn lemma_kept_after_delete_members(mods: Seq<ModEntry>, name: Seq<char>)
    ensures
        kept_after_delete(mods, name).len() <= mods.len(),
        forall|k: int|
            0 <= k < kept_after_delete(mods, name).len() ==> !eq_ignore_ascii_case_spec(
                name_or_empty(#[trigger] kept_after_delete(mods, name)[k]),
                name,
            ),
        forall|k: int|
            0 <= k < mods.len() && !eq_ignore_ascii_case_spec(name_or_empty(#[trigger] mods[k]), name)
                ==> kept_after_delete(mods, name).contains(mods[k]),
    decreases mods.len(),
{
    if mods.len() > 0 {
        let rest = mods.drop_last();
        lemma_kept_after_delete_members(rest, name);
        let kr = kept_after_delete(rest, name);
        assert forall|k: int|
            0 <= k < mods.len() && !eq_ignore_ascii_case_spec(name_or_empty(#[trigger] mods[k]), name)
            implies kept_after_delete(mods, name).contains(mods[k]) by {
            if k < mods.len() - 1 {
                assert(rest[k] == mods[k]);
                assert(kr.contains(mods[k]));
                let w = choose|w: int| 0 <= w < kr.len() && kr[w] == mods[k];
                if !eq_ignore_ascii_case_spec(name_or_empty(mods.last()), name) {
                    assert(kr.push(mods.last())[w] == mods[k]);
                }
            } else {
                assert(kr.push(mods.last())[kr.len() as int] == mods[k]);
            }
        }
    }
}

/// Deleting a mod leaves no entry of that name (ignoring ASCII case); every
/// other entry stays, the list is ordered by priority, and the indices count
/// up from 0.
pub proof fn lemma_delete_removes_and_keeps_order(
    before: SettingsData,
    mod_name: Seq<char>,
    after: SettingsData,
)
    requires
        deleted_mod(before, mod_name, after),
        data_index(before) >= 0,
    ensures
        ({
            let mods = after.properties@[data_index(before)].mods@;
            let old_mods = data_mods(before);
            &&& forall|i: int|
                0 <= i < mods.len() ==> !eq_ignore_ascii_case_spec(
                    name_or_empty(#[trigger] mods[i]),
                    mod_name,
                )
            &&& forall|i: int, j: int|
                0 <= i <= j < mods.len() ==> priority_key(#[trigger] mods[i]) <= priority_key(
                    #[trigger] mods[j],
                )
            &&& forall|i: int| 0 <= i < mods.len() ==> (#[trigger] mods[i]).index@ == decimal(i as nat)
            &&& forall|k: int|
                0 <= k < old_mods.len() && !eq_ignore_ascii_case_spec(
                    name_or_empty(#[trigger] old_mods[k]),
                    mod_name,
                ) ==> exists|i: int|
                    0 <= i < mods.len() && (#[trigger] mods[i]).properties == old_mods[k].properties
                        && mods[i].entry_name == old_mods[k].entry_name && mods[i].entry_value
                        == old_mods[k].entry_value
        }),
{
    broadcast use vstd::seq_lib::group_seq_properties;

    let old_mods = data_mods(before);
    let kept = kept_after_delete(old_mods, mod_name);
    let keyed = keyed_by_priority(kept);
    let sorted = stable_sort(keyed);
    let mods = after.properties@[data_index(before)].mods@;
    lemma_kept_after_delete_members(old_mods, mod_name);
    lemma_stable_sort_sorted_permutation(keyed);
    assert forall|i: int| 0 <= i < sorted.len() implies keyed.contains(#[trigger] sorted[i]) by {
        assert(sorted.to_multiset().count(sorted[i]) > 0);
    }
    assert forall|i: int|
        0 <= i < mods.len() implies !eq_ignore_ascii_case_spec(
        name_or_empty(#[trigger] mods[i]),
        mod_name,
    ) && sorted[i].0 == priority_key(mods[i]) by {
        assert(keyed.contains(sorted[i]));
        let k = choose|k: int| 0 <= k < keyed.len() && keyed[k] == sorted[i];
        assert(kept[k] == sorted[i].1);
    }
    assert forall|i: int, j: int|
        0 <= i <= j < mods.len() implies priority_key(#[trigger] mods[i]) <= priority_key(
        #[trigger] mods[j],
    ) by {
        assert(sorted[i].0 == priority_key(mods[i]));
        assert(sorted[j].0 == priority_key(mods[j]));
    }
    assert forall|k: int|
        0 <= k < old_mods.len() && !eq_ignore_ascii_case_spec(
            name_or_empty(#[trigger] old_mods[k]),
            mod_name,
        ) implies exists|i: int|
        0 <= i < mods.len() && (#[trigger] mods[i]).properties == old_mods[k].properties
            && mods[i].entry_name == old_mods[k].entry_name && mods[i].entry_value
            == old_mods[k].entry_value by {
        assert(kept.contains(old_mods[k]));
        let w = choose|w: int| 0 <= w < kept.len() && kept[w] == old_mods[k];
        assert(keyed[w] == (priority_key(kept[w]), kept[w]));
        assert(keyed.to_multiset().count(keyed[w]) > 0);
        assert(sorted.to_multiset().count(keyed[w]) > 0);
        assert(sorted.contains(keyed[w]));
        let i = choose|i: int| 0 <= i < sorted.len() && sorted[i] == keyed[w];
        assert(mods[i].properties == sorted[i].1.properties);
    }
}

proof fn lemma_entries_with_folder_in_set(mods: Seq<ModEntry>, set: Seq<String>)
    ensures
        forall|k: int|
            0 <= k < entries_with_folder(mods, set).len() ==> in_set(
                set,
                folder_key(#[trigger] entries_with_folder(mods, set)[k]),
            ),
    decreases mods.len(),
{
    if mods.len() > 0 {
        let rest = entries_with_folder(mods.drop_last(), set);
        lemma_entries_with_folder_in_set(mods.drop_last(), set);
        let r = entries_with_folder(mods, set);
        assert forall|k: int| 0 <= k < r.len() implies in_set(set, folder_key(#[trigger] r[k])) by {
            if k < rest.len() {
                assert(r[k] == rest[k]);
            }
        }
    }
}

proof fn lemma_entries_with_folder_all(mods: Seq<ModEntry>, set: Seq<String>)
    requires
        forall|k: int| 0 <= k < mods.len() ==> in_set(set, folder_key(#[trigger] mods[k])),
    ensures
        entries_with_folder(mods, set) == mods,
    decreases mods.len(),
{
    if mods.len() > 0 {
        let rest = mods.drop_last();
        assert forall|k: int| 0 <= k < rest.len() implies in_set(set, folder_key(#[trigger] rest[k])) by {
            assert(rest[k] == mods[k]);
        }
        lemma_entries_with_folder_all(rest, set);
        assert(in_set(set, folder_key(mods[mods.len() - 1])));
        assert(rest.push(mods.last()) =~= mods);
    }
}

proof fn lemma_renumbered_keeps_folder_key(a: ModEntry, b: ModEntry, idx: Seq<char>)
    requires
        renumbered(a, b, idx),
    ensures
        folder_key(b) == folder_key(a),
        entry_name(b) == entry_name(a),
        name_or_empty(b) == name_or_empty(a),
{
    reveal_strlit("Name");
    reveal_strlit("ModPriority");
    let k = prop_index(a, "ModPriority"@);
    if k >= 0 {
        assert(prop_names(b.properties@) =~= prop_names(a.properties@)) by {
            assert forall|q: int| 0 <= q < a.properties@.len() implies prop_names(b.properties@)[q]
                == prop_names(a.properties@)[q] by {
                if q != k {
                    assert(b.properties@[q] == a.properties@[q]);
                }
            }
        }
        let n = prop_index(a, "Name"@);
        assert(prop_index(b, "Name"@) == n);
        if n >= 0 {
            crate::models::lemma_first_index_spec(prop_names(a.properties@), "Name"@);
            crate::models::lemma_first_index_spec(prop_names(a.properties@), "ModPriority"@);
            assert(prop_names(a.properties@)[n] == "Name"@);
            assert(prop_names(a.properties@)[k] == "ModPriority"@);
            assert(n != k);
            assert(b.properties@[n] == a.properties@[n]);
        }
        assert(entry_name(b) == entry_name(a));
    }
}

/// Cleaning out orphaned entries is idempotent: a second clean with the same
/// real folders reports no change and leaves the document as it is.
pub proof fn lemma_clean_orphans_idempotent(
    before: SettingsData,
    real_folders_set: Seq<String>,
    first_dirty: bool,
    mid: SettingsData,
    second_dirty: bool,
    after: SettingsData,
)
    requires
        cleaned_orphans(before, real_folders_set, first_dirty, mid),
        cleaned_orphans(mid, real_folders_set, second_dirty, after),
    ensures
        !second_dirty,
        after == mid,
{
    let d = data_index(before);
    if d >= 0 && first_dirty {
        assert(top_names(mid.properties@) =~= top_names(before.properties@)) by {
            assert forall|j: int| 0 <= j < before.properties@.len() implies top_names(
                mid.properties@,
            )[j] == top_names(before.properties@)[j] by {
                if j != d {
                    assert(mid.properties@[j] == before.properties@[j]);
                }
            }
        }
        assert(data_index(mid) == d);
        let kept = entries_with_folder(data_mods(before), real_folders_set);
        let mods = data_mods(mid);
        lemma_entries_with_folder_in_set(data_mods(before), real_folders_set);
        assert forall|k: int| 0 <= k < mods.len() implies in_set(
            real_folders_set,
            folder_key(#[trigger] mods[k]),
        ) by {
            lemma_renumbered_keeps_folder_key(kept[k], mods[k], decimal(k as nat));
            assert(in_set(real_folders_set, folder_key(kept[k])));
        }
        lemma_entries_with_folder_all(mods, real_folders_set);
    }
}

/// The rows of the mod list are shown by priority, lowest first, and every
/// named entry of the `Data` list has its row.
pub proof fn lemma_render_rows_by_priority<F: Fn(&str) -> Option<ModInfo>>(
    root: SettingsData,
    real_folders_map: Seq<(String, String)>,
    mods_path: Seq<char>,
    read_mod_info: F,
    rows: Seq<ModRenderData>,
)
    requires
        rendered(root, real_folders_map, mods_path, read_mod_info, rows),
    ensures
        forall|i: int, j: int|
            0 <= i <= j < rows.len() ==> (#[trigger] rows[i]).priority <= (#[trigger] rows[j]).priority,
        data_index(root) >= 0 ==> forall|k: int|
            0 <= k < named_entries(data_mods(root)).len() ==> exists|i: int|
                0 <= i < rows.len() && renders(
                    #[trigger] named_entries(data_mods(root))[k],
                    real_folders_map,
                    mods_path,
                    read_mod_info,
                    rows[i],
                ),
{
    broadcast use vstd::seq_lib::group_seq_properties;

    if data_index(root) >= 0 {
        let named = named_entries(data_mods(root));
        let keyed = Seq::new(named.len(), |k: int| (priority_key(named[k]), k));
        let sorted = stable_sort(keyed);
        let order = render_order(named);
        lemma_stable_sort_sorted_permutation(keyed);
        assert forall|i: int| 0 <= i < sorted.len() implies keyed.contains(#[trigger] sorted[i]) by {
            assert(sorted.to_multiset().count(sorted[i]) > 0);
        }
        assert forall|i: int| 0 <= i < rows.len() implies (#[trigger] rows[i]).priority == sorted[i].0
            && 0 <= order[i] < named.len() by {
            assert(keyed.contains(sorted[i]));
            assert(renders(named[order[i]], real_folders_map, mods_path, read_mod_info, rows[i]));
        }
        assert forall|i: int, j: int|
            0 <= i <= j < rows.len() implies (#[trigger] rows[i]).priority <= (
            #[trigger] rows[j]).priority by {
            assert(rows[i].priority == sorted[i].0);
            assert(rows[j].priority == sorted[j].0);
        }
        assert forall|k: int| 0 <= k < named.len() implies exists|i: int|
            0 <= i < rows.len() && renders(
                #[trigger] named[k],
                real_folders_map,
                mods_path,
                read_mod_info,
                rows[i],
            ) by {
            assert(keyed[k] == (priority_key(named[k]), k));
            assert(keyed.to_multiset().count(keyed[k]) > 0);
            assert(sorted.contains(keyed[k]));
            let i = choose|i: int| 0 <= i < sorted.len() && sorted[i] == keyed[k];
            assert(order[i] == k);
            assert(renders(named[order[i]], real_folders_map, mods_path, read_mod_info, rows[i]));
        }
    } else {
        assert(rows.len() == 0);
    }
}

proof fn lemma_stable_sort_of_sorted<T>(s: Seq<(u32, T)>)
    requires
        keys_sorted(s),
    ensures
        stable_sort(s) == s,
    decreases s.len(),
{
    if s.len() > 0 {
        let t = s.drop_last();
        assert(keys_sorted(t));
        lemma_stable_sort_of_sorted(t);
        if t.len() == 0 {
            assert(seq![s.last()] =~= s);
        } else {
            assert(t.last().0 <= s.last().0);
            assert(sorted_insert(t, s.last()) == t.push(s.last()));
            assert(t.push(s.last()) =~= s);
        }
    }
}

proof fn lemma_kept_after_delete_all(mods: Seq<ModEntry>, name: Seq<char>)
    requires
        forall|k: int|
            0 <= k < mods.len() ==> !eq_ignore_ascii_case_spec(name_or_empty(#[trigger] mods[k]), name),
    ensures
        kept_after_delete(mods, name) == mods,
    decreases mods.len(),
{
    if mods.len() > 0 {
        let rest = mods.drop_last();
        assert forall|k: int| 0 <= k < rest.len() implies !eq_ignore_ascii_case_spec(
            name_or_empty(#[trigger] rest[k]),
            name,
        ) by {
            assert(rest[k] == mods[k]);
        }
        lemma_kept_after_delete_all(rest, name);
        assert(!eq_ignore_ascii_case_spec(name_or_empty(mods[mods.len() - 1]), name));
        assert(rest.push(mods.last()) =~= mods);
    }
}

/// Deleting a mod a second time changes nothing: the rest of the document is
/// kept and every entry keeps its name, value, properties and index.
pub proof fn lemma_delete_idempotent(
    before: SettingsData,
    mod_name: Seq<char>,
    mid: SettingsData,
    after: SettingsData,
)
    requires
        deleted_mod(before, mod_name, mid),
        deleted_mod(mid, mod_name, after),
    ensures
        data_index(before) < 0 ==> after == mid,
        data_index(before) >= 0 ==> {
            let m = data_mods(mid);
            let a = data_mods(after);
            &&& data_index(mid) == data_index(before)
            &&& only_data_mods_changed(mid, after)
            &&& a.len() == m.len()
            &&& forall|i: int|
                0 <= i < m.len() ==> (#[trigger] a[i]).entry_name == m[i].entry_name
                    && a[i].entry_value == m[i].entry_value && a[i].properties == m[i].properties
                    && a[i].index@ == m[i].index@
        },
{
    let d = data_index(before);
    if d >= 0 {
        assert(top_names(mid.properties@) =~= top_names(before.properties@)) by {
            assert forall|j: int| 0 <= j < before.properties@.len() implies top_names(
                mid.properties@,
            )[j] == top_names(before.properties@)[j] by {
                if j != d {
                    assert(mid.properties@[j] == before.properties@[j]);
                }
            }
        }
        assert(data_index(mid) == d);
        lemma_delete_removes_and_keeps_order(before, mod_name, mid);
        let m = data_mods(mid);
        lemma_kept_after_delete_all(m, mod_name);
        let keyed = keyed_by_priority(m);
        assert(keys_sorted(keyed)) by {
            assert forall|i: int, j: int| 0 <= i <= j < keyed.len() implies keyed[i].0 <= keyed[j].0 by {
                assert(priority_key(m[i]) <= priority_key(m[j]));
            }
        }
        lemma_stable_sort_of_sorted(keyed);
        let order = delete_order(m, mod_name);
        assert(order =~= m);
        assert(top_names(after.properties@) =~= top_names(mid.properties@)) by {
            assert forall|j: int| 0 <= j < mid.properties@.len() implies top_names(
                after.properties@,
            )[j] == top_names(mid.properties@)[j] by {
                if j != d {
                    assert(after.properties@[j] == mid.properties@[j]);
                }
            }
        }
        assert(data_index(after) == d);
        let a = data_mods(after);
        assert forall|i: int| 0 <= i < m.len() implies (#[trigger] a[i]).entry_name == m[i].entry_name
            && a[i].entry_value == m[i].entry_value && a[i].properties == m[i].properties
            && a[i].index@ == m[i].index@ by {
            assert(order[i] == m[i]);
        }
    }
}

proof fn lemma_entries_by_name_keys(m: Seq<ModEntry>)
    ensures
        forall|k: Seq<char>|
            #[trigger] entries_by_name(m).contains_key(k) ==> name_or_empty(entries_by_name(m)[k]) == k,
    decreases m.len(),
{
    if m.len() > 0 {
        lemma_entries_by_name_keys(m.drop_last());
        let t = entries_by_name(m);
        let prev = entries_by_name(m.drop_last());
        assert forall|k: Seq<char>| #[trigger] t.contains_key(k) implies name_or_empty(t[k]) == k by {
            if k != name_or_empty(m.last()) {
                assert(prev.contains_key(k));
            }
        }
    }
}

/// What walking the requested names keeps: the taken entries have distinct
/// names, none of them still among the remaining ones, and taken and
/// remaining entries together are exactly the table.
spec fn reorder_state_inv(table: Map<Seq<char>, ModEntry>, picks: Seq<(ModEntry, nat)>, rest: Map<Seq<char>, ModEntry>) -> bool {
    &&& forall|k: Seq<char>| #[trigger] rest.contains_key(k) ==> table.contains_key(k) && rest[k] == table[k]
    &&& forall|i: int|
        0 <= i < picks.len() ==> table.contains_key(name_or_empty(#[trigger] picks[i].0)) && !rest.contains_key(
            name_or_empty(picks[i].0),
        )
    &&& forall|i: int, j: int|
        0 <= i < j < picks.len() ==> name_or_empty(#[trigger] picks[i].0) != name_or_empty(#[trigger] picks[j].0)
    &&& forall|k: Seq<char>|
        #[trigger] table.contains_key(k) ==> rest.contains_key(k) || exists|i: int|
            0 <= i < picks.len() && name_or_empty(picks[i].0) == k
}

proof fn lemma_reorder_state_inv(table: Map<Seq<char>, ModEntry>, upper: Seq<Seq<char>>, n: nat)
    requires
        forall|k: Seq<char>| #[trigger] table.contains_key(k) ==> name_or_empty(table[k]) == k,
        n <= upper.len(),
    ensures
        reorder_state_inv(table, reorder_state(table, upper, n).0, reorder_state(table, upper, n).1),
    decreases n,
{
    if n > 0 {
        lemma_reorder_state_inv(table, upper, (n - 1) as nat);
        let prev = reorder_state(table, upper, (n - 1) as nat);
        let key = upper[n - 1];
        if prev.1.contains_key(key) {
            let picks = prev.0.push((prev.1[key], (n - 1) as nat));
            let rest = prev.1.remove(key);
            assert(name_or_empty(prev.1[key]) == key);
            assert forall|k: Seq<char>| #[trigger] table.contains_key(k) implies rest.contains_key(k) || exists|i: int|
                0 <= i < picks.len() && name_or_empty(picks[i].0) == k by {
                if k == key {
                    assert(name_or_empty(picks[picks.len() - 1].0) == k);
                } else if !prev.1.contains_key(k) {
                    let i = choose|i: int| 0 <= i < prev.0.len() && name_or_empty(prev.0[i].0) == k;
                    assert(picks[i] == prev.0[i]);
                }
            }
            assert forall|i: int, j: int|
                0 <= i < j < picks.len() implies name_or_empty(#[trigger] picks[i].0) != name_or_empty(
                #[trigger] picks[j].0,
            ) by {
                if j == picks.len() - 1 {
                    assert(picks[i] == prev.0[i]);
                    assert(!prev.1.contains_key(name_or_empty(prev.0[i].0)));
                } else {
                    assert(picks[i] == prev.0[i]);
                    assert(picks[j] == prev.0[j]);
                }
            }
            assert forall|i: int| 0 <= i < picks.len() implies table.contains_key(
                name_or_empty(#[trigger] picks[i].0),
            ) && !rest.contains_key(name_or_empty(picks[i].0)) by {
                if i < picks.len() - 1 {
                    assert(picks[i] == prev.0[i]);
                }
            }
        }
    }
}

/// Reordering keeps each mod of the list exactly once: the names of the
/// result are distinct and are exactly the names of the entries before
/// (of several entries with one name, one is kept).
pub proof fn lemma_reorder_keeps_each_mod_once(mods: Seq<ModEntry>, names: Seq<String>, after: Seq<ModEntry>)
    requires
        reorder_result(mods, names, after),
    ensures
        forall|i: int, j: int|
            0 <= i < j < after.len() ==> name_or_empty(#[trigger] after[i]) != name_or_empty(#[trigger] after[j]),
        forall|k: Seq<char>|
            entries_by_name(mods).contains_key(k) <==> exists|i: int|
                0 <= i < after.len() && name_or_empty(#[trigger] after[i]) == k,
{
    let table = entries_by_name(mods);
    let upper = upper_names(names);
    let st = reorder_state(table, upper, upper.len());
    let picks = st.0;
    let rest = st.1;
    lemma_entries_by_name_keys(mods);
    lemma_reorder_state_inv(table, upper, upper.len());
    assert forall|i: int| 0 <= i < picks.len() implies name_or_empty(#[trigger] after[i]) == name_or_empty(
        picks[i].0,
    ) by {
        lemma_renumbered_keeps_folder_key(picks[i].0, after[i], decimal(picks[i].1));
    }
    assert forall|i: int, j: int|
        0 <= i < j < after.len() implies name_or_empty(#[trigger] after[i]) != name_or_empty(
        #[trigger] after[j],
    ) by {
        if j < picks.len() {
            assert(name_or_empty(picks[i].0) != name_or_empty(picks[j].0));
        } else if i < picks.len() {
            assert(rest.contains_key(name_or_empty(after[j])));
            assert(!rest.contains_key(name_or_empty(picks[i].0)));
        }
    }
    assert forall|k: Seq<char>|
        table.contains_key(k) <==> exists|i: int| 0 <= i < after.len() && name_or_empty(#[trigger] after[i]) == k by {
        if table.contains_key(k) {
            if rest.contains_key(k) {
                let i = choose|i: int| picks.len() <= i < after.len() && name_or_empty(after[i]) == k;
                assert(name_or_empty(after[i]) == k);
            } else {
                let i = choose|i: int| 0 <= i < picks.len() && name_or_empty(picks[i].0) == k;
                assert(name_or_empty(after[i]) == k);
            }
        }
        if exists|i: int| 0 <= i < after.len() && name_or_empty(#[trigger] after[i]) == k {
            let i = choose|i: int| 0 <= i < after.len() && name_or_empty(#[trigger] after[i]) == k;
            if i < picks.len() {
                assert(table.contains_key(name_or_empty(picks[i].0)));
            } else {
                assert(rest.contains_key(name_or_empty(after[i])));
            }
        }
    }
}

/// The download percentage never passes 100 while no more than the total
/// has arrived, reaches 100 when all of it has, and never goes down as more
/// arrives.
pub proof fn lemma_download_percentage_bounded_and_monotone(a: u64, b: u64, total_size: u64)
    requires
        total_size != 0,
        a <= b,
    ensures
        (a * 100) / (total_size as int) <= (b * 100) / (total_size as int),
        b <= total_size ==> (b * 100) / (total_size as int) <= 100,
        (total_size * 100) / (total_size as int) == 100,
{
    assert((a * 100) / (total_size as int) <= (b * 100) / (total_size as int)) by (nonlinear_arith)
        requires
            a <= b,
            total_size > 0,
    ;
    assert(b <= total_size ==> (b * 100) / (total_size as int) <= 100) by (nonlinear_arith)
        requires
            total_size > 0,
    ;
    assert((total_size * 100) / (total_size as int) == 100) by (nonlinear_arith)
        requires
            total_size > 0,
    ;
}

/// The zip progress percentages grow with each entry and the last entry
/// reports 100.
pub proof fn lemma_zip_progress_reaches_100(i: int, j: int, total: int)
    requires
        0 <= i <= j < total,
    ensures
        ((i + 1) * 100) / total <= ((j + 1) * 100) / total,
        ((j + 1) * 100) / total <= 100,
        ((total - 1 + 1) * 100) / total == 100,
{
    assert(((i + 1) * 100) / total <= ((j + 1) * 100) / total) by (nonlinear_arith)
        requires
            0 <= i <= j,
            total > 0,
    ;
    assert(((j + 1) * 100) / total <= 100) by (nonlinear_arith)
        requires
            0 <= j < total,
    ;
    assert(((total - 1 + 1) * 100) / total == 100) by (nonlinear_arith)
        requires
            total > 0,
    ;
}

/// No two operations of `ops` have names equal ignoring ASCII case.
pub open spec fn distinct_op_names(ops: Seq<(Seq<char>, Seq<char>)>) -> bool {
    forall|i: int, j: int|
        0 <= i < j < ops.len() ==> !eq_ignore_ascii_case_spec(#[trigger] ops[i].1, #[trigger] ops[j].1)
}

proof fn lemma_push_unique_distinct(ops: Seq<(Seq<char>, Seq<char>)>, source: Seq<char>, name: Seq<char>)
    requires
        distinct_op_names(ops),
    ensures
        distinct_op_names(push_unique_spec(ops, source, name)),
{
    if !name_in_use(ops, name) {
        let r = ops.push((source, name));
        assert forall|i: int, j: int|
            0 <= i < j < r.len() implies !eq_ignore_ascii_case_spec(#[trigger] r[i].1, #[trigger] r[j].1) by {
            if j == r.len() - 1 {
                assert(r[i] == ops[i]);
                if eq_ignore_ascii_case_spec(r[i].1, r[j].1) {
                    assert(eq_ignore_ascii_case_spec(ops[i].1, name));
                }
            } else {
                assert(r[i] == ops[i] && r[j] == ops[j]);
            }
        }
    }
}

proof fn lemma_add_sources_distinct(ops: Seq<(Seq<char>, Seq<char>)>, sources: Seq<Seq<char>>)
    requires
        distinct_op_names(ops),
    ensures
        add_sources_spec(ops, sources) matches Some(o) ==> distinct_op_names(o),
    decreases sources.len(),
{
    if sources.len() > 0 {
        lemma_add_sources_distinct(ops, sources.drop_last());
        if let Some(o) = add_sources_spec(ops, sources.drop_last()) {
            if let Some(name) = crate::paths::file_name_spec(sources.last()) {
                lemma_push_unique_distinct(o, sources.last(), name);
            }
        }
    }
}

/// Each operation of `ops` deploys its folder under the folder's own last
/// path component.
pub open spec fn ops_named_by_source(ops: Seq<(Seq<char>, Seq<char>)>) -> bool {
    forall|i: int| 0 <= i < ops.len() ==> crate::paths::file_name_spec(#[trigger] ops[i].0) == Some(ops[i].1)
}

proof fn lemma_add_sources_named(ops: Seq<(Seq<char>, Seq<char>)>, sources: Seq<Seq<char>>)
    requires
        ops_named_by_source(ops),
    ensures
        add_sources_spec(ops, sources) matches Some(o) ==> ops_named_by_source(o),
    decreases sources.len(),
{
    if sources.len() > 0 {
        lemma_add_sources_named(ops, sources.drop_last());
        if let Some(o) = add_sources_spec(ops, sources.drop_last()) {
            if let Some(name) = crate::paths::file_name_spec(sources.last()) {
                let r = push_unique_spec(o, sources.last(), name);
                assert forall|i: int| 0 <= i < r.len() implies crate::paths::file_name_spec(#[trigger] r[i].0)
                    == Some(r[i].1) by {
                    if i < o.len() {
                        assert(r[i] == o[i]);
                    }
                }
            }
        }
    }
}

/// The deploy operations of an install never target two folders whose names
/// are equal ignoring ASCII case, and each deploys its folder under that
/// folder's own last path component.
pub proof fn lemma_deploy_ops_distinct_names(
    root: Seq<char>,
    items: Seq<String>,
    flatten: bool,
    probes: Seq<SourceProbe>,
    n: nat,
)
    ensures
        build_ops_spec(root, items, flatten, probes, n) matches Some(ops) ==> distinct_op_names(ops)
            && ops_named_by_source(ops),
    decreases n,
{
    if n > 0 {
        lemma_deploy_ops_distinct_names(root, items, flatten, probes, (n - 1) as nat);
        if let Some(o) = build_ops_spec(root, items, flatten, probes, (n - 1) as nat) {
            let srcs = item_sources(root, items[n - 1]@, flatten, probes[n - 1]);
            lemma_add_sources_distinct(o, srcs);
            lemma_add_sources_named(o, srcs);
        }
    }
}

/// Every read of a folder by `read_dir` lists it the same way, as a tree
/// on disk that does not change while it is scanned.
pub open spec fn listing_is_function<R: Fn(&str) -> Option<Vec<ScanEntry>>>(read_dir: R) -> bool {
    forall|p: &str, q: &str, a: Option<Vec<ScanEntry>>, b: Option<Vec<ScanEntry>>|
        #![trigger call_ensures(read_dir, (p,), a), call_ensures(read_dir, (q,), b)]
        p@ == q@ && call_ensures(read_dir, (p,), a) && call_ensures(read_dir, (q,), b) ==> a == b
}

/// `read_dir` can read the folder `dir` as `entries`.
pub open spec fn read_as<R: Fn(&str) -> Option<Vec<ScanEntry>>>(
    read_dir: R,
    dir: Seq<char>,
    entries: Vec<ScanEntry>,
) -> bool {
    exists|p: &str| p@ == dir && #[trigger] call_ensures(read_dir, (p,), Some(entries))
}

/// `c` is the candidate of an outermost mod root at or below `dir`: there is
/// a chain of folders from `dir`, each read as `lists` gives, each a
/// subfolder of the one before with a longer path, none too long to read,
/// where only the last is a mod root and its candidate is `c`.
pub open spec fn found_below<R: Fn(&str) -> Option<Vec<ScanEntry>>>(
    dir: Seq<char>,
    base_dir: Seq<char>,
    read_dir: R,
    c: Seq<char>,
) -> bool {
    exists|chain: Seq<Seq<char>>, lists: Seq<Vec<ScanEntry>>|
        #![trigger root_chain(chain, lists, base_dir, read_dir, c)]
        chain.len() > 0 && chain[0] == dir && root_chain(chain, lists, base_dir, read_dir, c)
}

/// The chain condition of `found_below`.
pub open spec fn root_chain<R: Fn(&str) -> Option<Vec<ScanEntry>>>(
    chain: Seq<Seq<char>>,
    lists: Seq<Vec<ScanEntry>>,
    base_dir: Seq<char>,
    read_dir: R,
    c: Seq<char>,
) -> bool {
    &&& chain.len() > 0
    &&& lists.len() == chain.len()
    &&& (forall|k: int| 0 <= k < chain.len() ==> (#[trigger] chain[k]).len() <= MAX_SCAN_PATH_CHARS)
    &&& (forall|k: int| 0 <= k < chain.len() ==> #[trigger] read_as(read_dir, chain[k], lists[k]))
    &&& (forall|k: int|
        0 <= k < chain.len() - 1 ==> !any_marks_mod_root(#[trigger] lists[k]@) && subfolders(
            lists[k]@,
        ).contains(chain[k + 1]) && chain[k].len() < chain[k + 1].len())
    &&& any_marks_mod_root(lists.last()@)
    &&& root_candidate(chain.last(), base_dir) == Some(c)
}

proof fn lemma_flatten_contains<A>(parts: Seq<Seq<A>>, x: A)
    ensures
        parts.flatten_alt().contains(x) <==> exists|i: int| 0 <= i < parts.len() && #[trigger] parts[i].contains(x),
    decreases parts.len(),
{
    if parts.len() > 0 {
        let d = parts.drop_last();
        lemma_flatten_contains(d, x);
        let f = d.flatten_alt();
        let l = parts.last();
        assert(parts.flatten_alt() == f + l);
        if (f + l).contains(x) {
            let k = choose|k: int| 0 <= k < (f + l).len() && (f + l)[k] == x;
            if k < f.len() {
                assert(f[k] == x);
                assert(f.contains(x));
                let i = choose|i: int| 0 <= i < d.len() && #[trigger] d[i].contains(x);
                assert(parts[i] == d[i]);
            } else {
                assert(l[k - f.len()] == x);
                assert(parts[parts.len() - 1].contains(x));
            }
        }
        if exists|i: int| 0 <= i < parts.len() && #[trigger] parts[i].contains(x) {
            let i = choose|i: int| 0 <= i < parts.len() && #[trigger] parts[i].contains(x);
            if i < parts.len() - 1 {
                assert(d[i] == parts[i]);
                assert(f.contains(x));
                let k = choose|k: int| 0 <= k < f.len() && f[k] == x;
                assert((f + l)[k] == x);
            } else {
                let k = choose|k: int| 0 <= k < l.len() && l[k] == x;
                assert((f + l)[f.len() + k] == x);
            }
        }
    }
}

/// What `scanned` says of one readable folder, taken apart.
proof fn lemma_scanned_unfold<R: Fn(&str) -> Option<Vec<ScanEntry>>>(
    dir: Seq<char>,
    base_dir: Seq<char>,
    read_dir: R,
    out: Seq<Seq<char>>,
) -> (r: (Option<Vec<ScanEntry>>, Seq<Seq<Seq<char>>>))
    requires
        scanned(dir, base_dir, read_dir, out),
        dir.len() <= MAX_SCAN_PATH_CHARS,
    ensures
        exists|p: &str| p@ == dir && #[trigger] call_ensures(read_dir, (p,), r.0),
        match r.0 {
            None => out.len() == 0,
            Some(entries) => if any_marks_mod_root(entries@) {
                out == match root_candidate(dir, base_dir) {
                    Some(c) => seq![c],
                    None => Seq::<Seq<char>>::empty(),
                }
            } else {
                let subs = subfolders(entries@);
                &&& r.1.len() == subs.len()
                &&& out == r.1.flatten_alt()
                &&& forall|i: int|
                    0 <= i < subs.len() ==> if dir.len() < subs[i].len() <= MAX_SCAN_PATH_CHARS {
                        scanned(subs[i], base_dir, read_dir, #[trigger] r.1[i])
                    } else {
                        r.1[i].len() == 0
                    }
            },
        },
{
    let (p, listed) = choose|p: &str, listed: Option<Vec<ScanEntry>>|
        #![trigger call_ensures(read_dir, (p,), listed)]
        p@ == dir && call_ensures(read_dir, (p,), listed) && match listed {
            None => out.len() == 0,
            Some(entries) => if any_marks_mod_root(entries@) {
                out == match root_candidate(dir, base_dir) {
                    Some(c) => seq![c],
                    None => Seq::<Seq<char>>::empty(),
                }
            } else {
                let subs = subfolders(entries@);
                exists|parts: Seq<Seq<Seq<char>>>|
                    #![trigger parts.flatten_alt()]
                    parts.len() == subs.len() && out == parts.flatten_alt() && forall|i: int|
                        0 <= i < subs.len() ==> if dir.len() < subs[i].len() <= MAX_SCAN_PATH_CHARS {
                            scanned(subs[i], base_dir, read_dir, #[trigger] parts[i])
                        } else {
                            parts[i].len() == 0
                        }
            },
        };
    match listed {
        Some(entries) => if !any_marks_mod_root(entries@) {
            let subs = subfolders(entries@);
            let parts = choose|parts: Seq<Seq<Seq<char>>>|
                #![trigger parts.flatten_alt()]
                parts.len() == subs.len() && out == parts.flatten_alt() && forall|i: int|
                    0 <= i < subs.len() ==> if dir.len() < subs[i].len() <= MAX_SCAN_PATH_CHARS {
                        scanned(subs[i], base_dir, read_dir, #[trigger] parts[i])
                    } else {
                        parts[i].len() == 0
                    };
            (listed, parts)
        } else {
            (listed, Seq::empty())
        },
        None => (listed, Seq::empty()),
    }
}

proof fn lemma_scanned_sound<R: Fn(&str) -> Option<Vec<ScanEntry>>>(
    dir: Seq<char>,
    base_dir: Seq<char>,
    read_dir: R,
    out: Seq<Seq<char>>,
    c: Seq<char>,
)
    requires
        scanned(dir, base_dir, read_dir, out),
        out.contains(c),
    ensures
        found_below(dir, base_dir, read_dir, c),
    decreases MAX_SCAN_PATH_CHARS + 1 - dir.len(),
{
    if dir.len() > MAX_SCAN_PATH_CHARS {
        assert(out.len() == 0);
    } else {
        let (listed, parts) = lemma_scanned_unfold(dir, base_dir, read_dir, out);
        if let Some(entries) = listed {
            assert(read_as(read_dir, dir, entries));
            if any_marks_mod_root(entries@) {
                match root_candidate(dir, base_dir) {
                    Some(x) => assert(out[0] == x),
                    None => assert(out.len() == 0),
                }
                let chain = seq![dir];
                let lists = seq![entries];
                assert(root_chain(chain, lists, base_dir, read_dir, c));
            } else {
                let subs = subfolders(entries@);
                lemma_flatten_contains(parts, c);
                let i = choose|i: int| 0 <= i < parts.len() && #[trigger] parts[i].contains(c);
                if !(dir.len() < subs[i].len() <= MAX_SCAN_PATH_CHARS) {
                    assert(parts[i].len() == 0);
                }
                assert(scanned(subs[i], base_dir, read_dir, parts[i]));
                lemma_scanned_sound(subs[i], base_dir, read_dir, parts[i], c);
                let (ch, ls) = choose|chain: Seq<Seq<char>>, lists: Seq<Vec<ScanEntry>>|
                    #![trigger root_chain(chain, lists, base_dir, read_dir, c)]
                    chain.len() > 0 && chain[0] == subs[i] && root_chain(chain, lists, base_dir, read_dir, c);
                let chain = seq![dir] + ch;
                let lists = seq![entries] + ls;
                assert(subs.contains(subs[i]));
                assert forall|k: int| 0 <= k < chain.len() implies (#[trigger] chain[k]).len()
                    <= MAX_SCAN_PATH_CHARS by {
                    if k > 0 {
                        assert(chain[k] == ch[k - 1]);
                    }
                }
                assert forall|k: int| 0 <= k < chain.len() implies #[trigger] read_as(
                    read_dir,
                    chain[k],
                    lists[k],
                ) by {
                    if k > 0 {
                        assert(chain[k] == ch[k - 1] && lists[k] == ls[k - 1]);
                        assert(read_as(read_dir, ch[k - 1], ls[k - 1]));
                    }
                }
                assert forall|k: int| 0 <= k < chain.len() - 1 implies !any_marks_mod_root(
                    #[trigger] lists[k]@,
                ) && subfolders(lists[k]@).contains(chain[k + 1]) && chain[k].len() < chain[k
                    + 1].len() by {
                    if k > 0 {
                        assert(chain[k] == ch[k - 1] && lists[k] == ls[k - 1] && chain[k + 1] == ch[k]);
                        assert(!any_marks_mod_root(ls[k - 1]@));
                    }
                }
                assert(chain.last() == ch.last() && lists.last() == ls.last());
                assert(root_chain(chain, lists, base_dir, read_dir, c));
            }
        }
    }
}

proof fn lemma_scanned_complete<R: Fn(&str) -> Option<Vec<ScanEntry>>>(
    chain: Seq<Seq<char>>,
    lists: Seq<Vec<ScanEntry>>,
    base_dir: Seq<char>,
    read_dir: R,
    out: Seq<Seq<char>>,
    c: Seq<char>,
)
    requires
        listing_is_function(read_dir),
        root_chain(chain, lists, base_dir, read_dir, c),
        scanned(chain[0], base_dir, read_dir, out),
    ensures
        out.contains(c),
    decreases chain.len(),
{
    let dir = chain[0];
    assert(read_as(read_dir, chain[0], lists[0]));
    let q = choose|p: &str| p@ == dir && #[trigger] call_ensures(read_dir, (p,), Some(lists[0]));
    let (listed, parts) = lemma_scanned_unfold(dir, base_dir, read_dir, out);
    assert(listed == Some(lists[0]));
    if chain.len() == 1 {
        assert(out == seq![c]);
        assert(out[0] == c);
    } else {
        assert(!any_marks_mod_root(lists[0]@));
        let subs = subfolders(lists[0]@);
        assert(subs.contains(chain[1]));
        let i = choose|i: int| 0 <= i < subs.len() && subs[i] == chain[1];
        assert(read_as(read_dir, chain[1], lists[1]));
        assert(scanned(subs[i], base_dir, read_dir, parts[i]));
        let ch = chain.drop_first();
        let ls = lists.drop_first();
        assert forall|k: int| 0 <= k < ch.len() implies (#[trigger] ch[k]).len() <= MAX_SCAN_PATH_CHARS by {
            assert(ch[k] == chain[k + 1]);
        }
        assert forall|k: int| 0 <= k < ch.len() implies #[trigger] read_as(read_dir, ch[k], ls[k]) by {
            assert(read_as(read_dir, chain[k + 1], lists[k + 1]));
        }
        assert forall|k: int| 0 <= k < ch.len() - 1 implies !any_marks_mod_root(#[trigger] ls[k]@)
            && subfolders(ls[k]@).contains(ch[k + 1]) && ch[k].len() < ch[k + 1].len() by {
            assert(!any_marks_mod_root(lists[k + 1]@));
        }
        assert(ch.last() == chain.last() && ls.last() == lists.last());
        assert(root_chain(ch, ls, base_dir, read_dir, c));
        lemma_scanned_complete(ch, ls, base_dir, read_dir, parts[i], c);
        lemma_flatten_contains(parts, c);
    }
}

/// Scanning finds exactly the outermost mod roots: where every folder reads
/// the same each time, a path is among those scanning `dir` gives if and
/// only if it is the candidate of a mod root at or below `dir` that is
/// reached only through folders that are no mod roots.
pub proof fn lemma_scan_finds_outermost_mod_roots<R: Fn(&str) -> Option<Vec<ScanEntry>>>(
    dir: Seq<char>,
    base_dir: Seq<char>,
    read_dir: R,
    out: Seq<Seq<char>>,
)
    requires
        listing_is_function(read_dir),
        scanned(dir, base_dir, read_dir, out),
    ensures
        forall|c: Seq<char>| #[trigger] out.contains(c) <==> found_below(dir, base_dir, read_dir, c),
{
    assert forall|c: Seq<char>| #[trigger] out.contains(c) <==> found_below(dir, base_dir, read_dir, c) by {
        if out.contains(c) {
            lemma_scanned_sound(dir, base_dir, read_dir, out, c);
        }
        if found_below(dir, base_dir, read_dir, c) {
            let (chain, lists) = choose|chain: Seq<Seq<char>>, lists: Seq<Vec<ScanEntry>>|
                #![trigger root_chain(chain, lists, base_dir, read_dir, c)]
                chain.len() > 0 && chain[0] == dir && root_chain(chain, lists, base_dir, read_dir, c);
            lemma_scanned_complete(chain, lists, base_dir, read_dir, out, c);
        }
    }
}

/// Scanning a folder that is a mod root does not descend: it gives the
/// folder's own candidate alone (none when the base does not lead it), and
/// scanning a folder that cannot be read gives nothing.
pub proof fn lemma_scan_stops_at_mod_root<R: Fn(&str) -> Option<Vec<ScanEntry>>>(
    dir: Seq<char>,
    base_dir: Seq<char>,
    read_dir: R,
    listed: Option<Vec<ScanEntry>>,
    out: Seq<Seq<char>>,
)
    requires
        listing_is_function(read_dir),
        dir.len() <= MAX_SCAN_PATH_CHARS,
        exists|p: &str| p@ == dir && #[trigger] call_ensures(read_dir, (p,), listed),
        scanned(dir, base_dir, read_dir, out),
    ensures
        listed is None ==> out.len() == 0,
        listed matches Some(entries) && any_marks_mod_root(entries@) ==> out == match root_candidate(
            dir,
            base_dir,
        ) {
            Some(c) => seq![c],
            None => Seq::<Seq<char>>::empty(),
        },
{
    let q = choose|p: &str| p@ == dir && #[trigger] call_ensures(read_dir, (p,), listed);
    let (l, parts) = lemma_scanned_unfold(dir, base_dir, read_dir, out);
    assert(l == listed);
}

} // verus!
