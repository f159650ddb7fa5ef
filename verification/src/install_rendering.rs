//! The mod list as shown: entries of the settings document whose folder is
//! gone are dropped, and the rest become render rows sorted by priority.
use vstd::prelude::*;
use crate::install_planning::pair_keys;
use crate::install_execution::{table_view, upsert, upsert_pair};
use crate::models::{
    data_index, entry_priority, entry_prop_value, find_top, first_index, lemma_first_index_is,
    lemma_first_index_none, entry_name, prop_value, priority_key, LocalModInfo, ModEntry, ModInfo,
    ModRenderData, SettingsData,
};
use crate::ordering::{data_mods, only_data_mods_changed, renumber_entry, renumbered};
use crate::paths::{join_path, path_join};
use crate::sorting::{lemma_stable_sort_map, map_items, stable_sort, stable_sort_by_key};
use crate::text::{decimal, owned, str_eq, to_uppercase, unicode_upper};

verus! {

/// The name an entry is looked up by among the real folders: its upper-cased
/// `Name`, or the empty string when it has none.
pub open spec fn folder_key(e: ModEntry) -> Seq<char> {
    match entry_name(e) {
        Some(n) => unicode_upper(n),
        None => Seq::empty(),
    }
}

pub open spec fn in_set(set: Seq<String>, k: Seq<char>) -> bool {
    exists|i: int| 0 <= i < set.len() && set[i]@ == k
}

/// The entries whose folder key is in `set`, in order.
pub open spec fn entries_with_folder(mods: Seq<ModEntry>, set: Seq<String>) -> Seq<ModEntry>
    decreases mods.len(),
{
    if mods.len() == 0 {
        Seq::empty()
    } else {
        let rest = entries_with_folder(mods.drop_last(), set);
        if in_set(set, folder_key(mods.last())) {
            rest.push(mods.last())
        } else {
            rest
        }
    }
}

proof fn lemma_entries_with_folder_len(mods: Seq<ModEntry>, set: Seq<String>)
    ensures
        entries_with_folder(mods, set).len() <= mods.len(),
        entries_with_folder(mods, set).len() == mods.len() ==> entries_with_folder(mods, set)
            == mods,
    decreases mods.len(),
{
    if mods.len() > 0 {
        lemma_entries_with_folder_len(mods.drop_last(), set);
        if entries_with_folder(mods, set).len() == mods.len() {
            assert(in_set(set, folder_key(mods.last())));
            assert(mods.drop_last().push(mods.last()) =~= mods);
        }
    }
}

fn key_in_set(set: &Vec<String>, k: &str) -> (r: bool)
    ensures
        r == in_set(set@, k@),
{
    let mut i: usize = 0;
    while i < set.len()
        invariant
            i <= set@.len(),
            forall|j: int| 0 <= j < i ==> set@[j]@ != k@,
        decreases set@.len() - i,
    {
        if str_eq(set[i].as_str(), k) {
            return true;
        }
        i = i + 1;
    }
    false
}

fn entry_folder_key(e: &ModEntry) -> (r: String)
    ensures
        r@ == folder_key(*e),
{
    match entry_prop_value(e, "Name") {
        Some(v) => to_uppercase(v.as_str()),
        None => String::new(),
    }
}

/// `after` is `before` without the entries whose folder is gone, renumbered
/// from 0 when any was dropped; `dirty` says whether any was.
pub open spec fn cleaned_orphans(before: SettingsData, real_folders_set: Seq<String>, dirty: bool, after: SettingsData) -> bool {
    &&& data_index(before) < 0 ==> !dirty && after == before
    &&& data_index(before) >= 0 ==> {
        let kept = entries_with_folder(data_mods(before), real_folders_set);
        let mods = after.properties@[data_index(before)].mods@;
        &&& dirty == (kept.len() != data_mods(before).len())
        &&& !dirty ==> after == before
        &&& dirty ==> {
            &&& only_data_mods_changed(before, after)
            &&& mods.len() == kept.len()
            &&& forall|i: int| 0 <= i < kept.len() ==> renumbered(kept[i], mods[i], decimal(i as nat))
        }
    }
}

/// Drops the entries of the `Data` list whose upper-cased name is not among
/// the real folders (`real_folders_set`, upper-cased names). When any was
/// dropped, the rest get their index and `ModPriority` renumbered from 0 and
/// the result is `true`; otherwise nothing changes and the result is `false`.
pub fn clean_orphaned_entries(root: &mut SettingsData, real_folders_set: &Vec<String>) -> (r: bool)
    ensures
        cleaned_orphans(*old(root), real_folders_set@, r, *final(root)),
{
    let d = match find_top(&root.properties, "Data") {
        Some(d) => d,
        None => {
            return false;
        },
    };
    let ghost orig = root.properties@[d as int].mods@;
    let original_len = root.properties[d].mods.len();
    let mut keep: Vec<bool> = Vec::new();
    let mut count: usize = 0;
    let mut i: usize = 0;
    assert(orig.subrange(0, 0) =~= Seq::<ModEntry>::empty());
    while i < original_len
        invariant
            orig == root.properties@[d as int].mods@,
            d < root.properties@.len(),
            original_len == orig.len(),
            i <= original_len,
            keep@.len() == i,
            forall|j: int| 0 <= j < i ==> keep@[j] == in_set(real_folders_set@, folder_key(#[trigger] orig[j])),
            count == entries_with_folder(orig.subrange(0, i as int), real_folders_set@).len(),
            count <= i,
        decreases original_len - i,
    {
        let ghost prefix = orig.subrange(0, i + 1);
        assert(prefix.drop_last() =~= orig.subrange(0, i as int));
        let key = entry_folder_key(&root.properties[d].mods[i]);
        let hit = key_in_set(real_folders_set, key.as_str());
        keep.push(hit);
        if hit {
            count = count + 1;
        }
        i = i + 1;
    }
    assert(orig.subrange(0, original_len as int) =~= orig);
    proof {
        lemma_entries_with_folder_len(orig, real_folders_set@);
    }
    if count == original_len {
        return false;
    }
    let mut taken: Vec<ModEntry> = Vec::new();
    std::mem::swap(&mut taken, &mut root.properties[d].mods);
    let ghost mut done: int = 0;
    let mut kept: Vec<ModEntry> = Vec::new();
    while taken.len() > 0
        invariant
            0 <= done <= orig.len(),
            keep@.len() == orig.len(),
            forall|j: int| 0 <= j < orig.len() ==> keep@[j] == in_set(real_folders_set@, folder_key(#[trigger] orig[j])),
            taken@ == orig.subrange(done, orig.len() as int),
            kept@ == entries_with_folder(orig.subrange(0, done), real_folders_set@),
        decreases taken.len(),
    {
        let e = taken.remove(0);
        let ghost prefix = orig.subrange(0, done + 1);
        assert(prefix.drop_last() =~= orig.subrange(0, done));
        assert(prefix.last() == e);
        let ix = keep.len() - taken.len() - 1;
        assert(ix == done);
        if keep[ix] {
            kept.push(e);
        }
        proof {
            done = done + 1;
        }
        assert(taken@ =~= orig.subrange(done, orig.len() as int));
    }
    assert(orig.subrange(0, done) =~= orig);
    let n = kept.len();
    let mut i: usize = 0;
    let ghost k0 = kept@;
    while i < n
        invariant
            n == k0.len(),
            kept@.len() == n,
            i <= n,
            forall|j: int| 0 <= j < i ==> renumbered(k0[j], kept@[j], decimal(j as nat)),
            forall|j: int| i <= j < n ==> kept@[j] == k0[j],
        decreases n - i,
    {
        renumber_entry(&mut kept[i], i);
        i = i + 1;
    }
    root.properties[d].mods = kept;
    true
}

/// The folder a named entry is shown under: the real folder recorded for its
/// upper-cased name, else the name itself.
pub open spec fn folder_for(name: Seq<char>, real_folders: Seq<(String, String)>) -> Seq<char> {
    let i = first_index(pair_keys(real_folders), unicode_upper(name));
    if i >= 0 {
        real_folders[i].1@
    } else {
        name
    }
}

/// The entries that have a `Name`, in order.
pub open spec fn named_entries(mods: Seq<ModEntry>) -> Seq<ModEntry>
    decreases mods.len(),
{
    if mods.len() == 0 {
        Seq::empty()
    } else {
        let rest = named_entries(mods.drop_last());
        if entry_name(mods.last()).is_some() {
            rest.push(mods.last())
        } else {
            rest
        }
    }
}

/// `l` is the local info of folder `folder` built from what its
/// `mod_info.json` gave.
pub open spec fn local_info_from(info: Option<ModInfo>, folder: Seq<char>, l: Option<LocalModInfo>) -> bool {
    match info {
        None => l.is_none(),
        Some(mi) => l matches Some(x) && x.folder_name@ == folder && x.mod_id == mi.mod_id
            && x.file_id == mi.file_id && x.version == mi.version && x.install_source
            == mi.install_source,
    }
}

/// `row` renders entry `e`: its folder, whether `Enabled` is `true`, its
/// priority, and the local info read from `<mods>/<folder>`.
pub open spec fn renders<F: Fn(&str) -> Option<ModInfo>>(
    e: ModEntry,
    real_folders: Seq<(String, String)>,
    mods_path: Seq<char>,
    read_mod_info: F,
    row: ModRenderData,
) -> bool {
    let folder = folder_for(entry_name(e).unwrap(), real_folders);
    &&& row.folder_name@ == folder
    &&& row.enabled == (prop_value(e, "Enabled"@) == Some("true"@))
    &&& row.priority == priority_key(e)
    &&& exists|p: &str, info: Option<ModInfo>|
        p@ == path_join(mods_path, folder) && call_ensures(read_mod_info, (p,), info)
            && local_info_from(info, folder, row.local_info)
}

/// The positions of `named` in the order rows are shown: stably by priority.
pub open spec fn render_order(named: Seq<ModEntry>) -> Seq<int> {
    stable_sort(Seq::new(named.len(), |k: int| (priority_key(named[k]), k))).map_values(
        |p: (u32, int)| p.1,
    )
}

fn lookup_folder<'a>(real_folders: &'a Vec<(String, String)>, key: &str) -> (r: Option<&'a String>)
    ensures
        match r {
            Some(s) => {
                let i = first_index(pair_keys(real_folders@), key@);
                i >= 0 && real_folders@[i].1@ == s@
            },
            None => first_index(pair_keys(real_folders@), key@) == -1,
        },
{
    let ghost keys = pair_keys(real_folders@);
    let mut i: usize = 0;
    while i < real_folders.len()
        invariant
            i <= real_folders@.len(),
            keys == pair_keys(real_folders@),
            forall|j: int| 0 <= j < i ==> keys[j] != key@,
        decreases real_folders@.len() - i,
    {
        if str_eq(real_folders[i].0.as_str(), key) {
            proof {
                lemma_first_index_is(keys, key@, i as int);
            }
            return Some(&real_folders[i].1);
        }
        i = i + 1;
    }
    proof {
        lemma_first_index_none(keys, key@);
    }
    None
}

fn render_row<F: Fn(&str) -> Option<ModInfo>>(
    e: &ModEntry,
    name: &String,
    real_folders: &Vec<(String, String)>,
    mods_path: &str,
    read_mod_info: &F,
) -> (r: ModRenderData)
    requires
        entry_name(*e) == Some(name@),
        forall|s: &str| call_requires(*read_mod_info, (s,)),
    ensures
        renders(*e, real_folders@, mods_path@, *read_mod_info, r),
{
    let upper = to_uppercase(name.as_str());
    let folder_name = match lookup_folder(real_folders, upper.as_str()) {
        Some(found) => owned(found.as_str()),
        None => owned(name.as_str()),
    };
    let enabled = match entry_prop_value(e, "Enabled") {
        Some(v) => str_eq(v.as_str(), "true"),
        None => false,
    };
    let priority = entry_priority(e);
    let folder_path = join_path(mods_path, folder_name.as_str());
    let p = folder_path.as_str();
    let info = read_mod_info(p);
    let local_info = match info {
        Some(mi) => Some(
            LocalModInfo {
                folder_name: owned(folder_name.as_str()),
                mod_id: mi.mod_id,
                file_id: mi.file_id,
                version: mi.version,
                install_source: mi.install_source,
            },
        ),
        None => None,
    };
    let row = ModRenderData { folder_name, enabled, priority, local_info };
    assert(call_ensures(*read_mod_info, (p,), info));
    assert(local_info_from(info, row.folder_name@, row.local_info));
    row
}

/// `rows` are the render rows of `root`: one per named entry of the `Data`
/// list, in render order (none without a `Data` property).
pub open spec fn rendered<F: Fn(&str) -> Option<ModInfo>>(
    root: SettingsData,
    real_folders_map: Seq<(String, String)>,
    mods_path: Seq<char>,
    read_mod_info: F,
    rows: Seq<ModRenderData>,
) -> bool {
    &&& data_index(root) < 0 ==> rows.len() == 0
    &&& data_index(root) >= 0 ==> {
        let named = named_entries(data_mods(root));
        let order = render_order(named);
        &&& rows.len() == named.len()
        &&& forall|i: int|
            0 <= i < rows.len() ==> renders(
                named[order[i]],
                real_folders_map,
                mods_path,
                read_mod_info,
                #[trigger] rows[i],
            )
    }
}

/// The render rows of the named entries of the `Data` list (none without a
/// `Data` property), each with its real folder, `Enabled` flag, priority and
/// the local info `read_mod_info` gives for `<mods_path>/<folder>`, stably
/// sorted by priority.
pub fn build_mods_to_render<F: Fn(&str) -> Option<ModInfo>>(
    root: &SettingsData,
    real_folders_map: &Vec<(String, String)>,
    mods_path: &str,
    read_mod_info: F,
) -> (r: Vec<ModRenderData>)
    requires
        forall|s: &str| call_requires(read_mod_info, (s,)),
    ensures
        rendered(*root, real_folders_map@, mods_path@, read_mod_info, r@),
{
    let d = match find_top(&root.properties, "Data") {
        Some(d) => d,
        None => {
            return Vec::new();
        },
    };
    let mods = &root.properties[d].mods;
    let ghost m = mods@;
    let mut rows: Vec<(u32, ModRenderData)> = Vec::new();
    let ghost mut named: Seq<ModEntry> = Seq::empty();
    let mut i: usize = 0;
    assert(m.subrange(0, 0) =~= Seq::<ModEntry>::empty());
    while i < mods.len()
        invariant
            m == mods@,
            i <= m.len(),
            named == named_entries(m.subrange(0, i as int)),
            rows@.len() == named.len(),
            forall|k: int| 0 <= k < named.len() ==> entry_name(#[trigger] named[k]).is_some(),
            forall|k: int|
                #![trigger rows@[k]]
                0 <= k < rows@.len() ==> rows@[k].0 == priority_key(named[k]) && renders(
                    named[k],
                    real_folders_map@,
                    mods_path@,
                    read_mod_info,
                    rows@[k].1,
                ),
            forall|s: &str| call_requires(read_mod_info, (s,)),
        decreases m.len() - i,
    {
        let e = &mods[i];
        let ghost prefix = m.subrange(0, i + 1);
        assert(prefix.drop_last() =~= m.subrange(0, i as int));
        assert(prefix.last() == *e);
        match entry_prop_value(e, "Name") {
            Some(name) => {
                let row = render_row(e, name, real_folders_map, mods_path, &read_mod_info);
                let key = row.priority;
                let ghost before = rows@;
                let ghost named_before = named;
                rows.push((key, row));
                proof {
                    named = named.push(*e);
                    assert(named_entries(prefix) == named_entries(prefix.drop_last()).push(*e));
                    assert forall|k: int|
                        #![trigger rows@[k]]
                        0 <= k < rows@.len() implies rows@[k].0 == priority_key(named[k]) && renders(
                        named[k],
                        real_folders_map@,
                        mods_path@,
                        read_mod_info,
                        rows@[k].1,
                    ) by {
                        if k < before.len() {
                            assert(rows@[k] == before[k]);
                            assert(before[k].1 == rows@[k].1);
                            assert(named[k] == named_before[k]);
                        } else {
                            assert(k == before.len());
                            assert(rows@[k] == (key, row));
                            assert(named[k] == *e);
                            assert(renders(*e, real_folders_map@, mods_path@, read_mod_info, row));
                        }
                    }
                }
            },
            None => {
                assert(named_entries(prefix) == named_entries(prefix.drop_last()));
            },
        }
        i = i + 1;
    }
    assert(m.subrange(0, m.len() as int) =~= m);
    let ghost rv = rows@;
    let ghost idx = Seq::new(named.len(), |k: int| (priority_key(named[k]), k));
    let ghost pick = |k: int| rv[k].1;
    proof {
        assert(rows@ =~= map_items(idx, pick));
        lemma_stable_sort_map(idx, pick);
    }
    let mut sorted = stable_sort_by_key(rows);
    let ghost s = sorted@;
    let ghost sorted_idx = stable_sort(idx);
    proof {
        crate::sorting::lemma_stable_sort_sorted_permutation(idx);
        sorted_idx.to_multiset_ensures();
        idx.to_multiset_ensures();
        assert forall|j: int| 0 <= j < sorted_idx.len() implies 0 <= #[trigger] sorted_idx[j].1
            < named.len() by {
            let x = sorted_idx[j];
            assert(sorted_idx.contains(x));
            assert(sorted_idx.to_multiset().count(x) > 0);
            assert(idx.to_multiset().count(x) > 0);
            assert(idx.contains(x));
        }
    }
    let mut out: Vec<ModRenderData> = Vec::new();
    while sorted.len() > 0
        invariant
            out@.len() <= s.len(),
            s.len() == named.len(),
            sorted@ == s.subrange(out@.len() as int, s.len() as int),
            s == map_items(sorted_idx, pick),
            sorted_idx.len() == named.len(),
            forall|j: int| 0 <= j < sorted_idx.len() ==> 0 <= #[trigger] sorted_idx[j].1 < named.len(),
            forall|k: int|
                0 <= k < rv.len() ==> renders(
                    named[k],
                    real_folders_map@,
                    mods_path@,
                    read_mod_info,
                    #[trigger] rv[k].1,
                ),
            rv.len() == named.len(),
            pick == (|k: int| rv[k].1),
            forall|j: int|
                0 <= j < out@.len() ==> #[trigger] out@[j] == rv[sorted_idx[j].1].1,
        decreases sorted.len(),
    {
        let ghost n0 = out@.len() as int;
        let (_, row) = sorted.remove(0);
        assert(row == rv[sorted_idx[n0].1].1);
        out.push(row);
        assert(sorted@ =~= s.subrange(out@.len() as int, s.len() as int));
    }
    proof {
        let order = render_order(named);
        assert forall|j: int| 0 <= j < out@.len() implies renders(
            named[order[j]],
            real_folders_map@,
            mods_path@,
            read_mod_info,
            #[trigger] out@[j],
        ) by {
            assert(order[j] == sorted_idx[j].1);
            assert(out@[j] == rv[sorted_idx[j].1].1);
        }
    }
    out
}

/// The real-folder table of the first `n` folder names: each name's
/// upper-cased form (`str::to_uppercase`) with the name itself, a later
/// folder replacing an earlier one with the same upper-cased form.
pub open spec fn real_folder_table(names: Seq<String>, n: nat) -> Seq<(Seq<char>, Seq<char>)>
    decreases n,
{
    if n == 0 || n > names.len() {
        Seq::empty()
    } else {
        upsert(real_folder_table(names, (n - 1) as nat), unicode_upper(names[n - 1]@), names[n - 1]@)
    }
}

/// The lookups of the mods folder from the names of its folders: the table
/// from upper-cased name to real name (see `real_folder_table`), and the
/// upper-cased names, one per folder, in order.
pub fn real_folders_from_names(names: &Vec<String>) -> (r: (Vec<(String, String)>, Vec<String>))
    ensures
        table_view(r.0@) == real_folder_table(names@, names@.len()),
        r.1@.len() == names@.len(),
        forall|i: int| 0 <= i < names@.len() ==> (#[trigger] r.1@[i])@ == unicode_upper(names@[i]@),
{
    let mut map: Vec<(String, String)> = Vec::new();
    let mut set: Vec<String> = Vec::new();
    let mut i: usize = 0;
    assert(table_view(map@) =~= Seq::<(Seq<char>, Seq<char>)>::empty());
    while i < names.len()
        invariant
            i <= names@.len(),
            table_view(map@) == real_folder_table(names@, i as nat),
            set@.len() == i,
            forall|k: int| 0 <= k < i ==> (#[trigger] set@[k])@ == unicode_upper(names@[k]@),
        decreases names@.len() - i,
    {
        let name = &names[i];
        let upper = to_uppercase(name.as_str());
        set.push(owned(upper.as_str()));
        upsert_pair(&mut map, upper, owned(name.as_str()));
        i = i + 1;
    }
    (map, set)
}

} // verus!
