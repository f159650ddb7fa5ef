//! Edits of the mod list in the settings document: deleting a mod and
//! re-indexing, reordering by a list of names, and renaming an entry.
use vstd::prelude::*;
use crate::models::{
    data_index, entry_name_or_empty, entry_priority, find_prop, find_top, name_or_empty,
    opt_view, prop_index, priority_key, ModEntry, ModProperty, SettingsData,
};
use crate::sorting::{stable_sort, stable_sort_by_key};
use crate::text::{
    concat3, decimal, eq_ignore_ascii_case, eq_ignore_ascii_case_spec, owned, str_eq,
    to_uppercase, unicode_upper, usize_to_string,
};

verus! {

// ---------------------------------------------------------------------------
// Relations between an entry before and after an edit
// ---------------------------------------------------------------------------

/// `b` is `a` with its index set to `idx` and nothing else changed.
pub open spec fn with_index(a: ModEntry, b: ModEntry, idx: Seq<char>) -> bool {
    &&& b.entry_name == a.entry_name
    &&& b.entry_value == a.entry_value
    &&& b.properties == a.properties
    &&& b.index@ == idx
}

/// `b` is `a` with its index and its first `ModPriority` value (when it has
/// such a property) set to `idx`, and nothing else changed.
pub open spec fn renumbered(a: ModEntry, b: ModEntry, idx: Seq<char>) -> bool {
    let k = prop_index(a, "ModPriority"@);
    &&& b.entry_name == a.entry_name
    &&& b.entry_value == a.entry_value
    &&& b.index@ == idx
    &&& if k < 0 {
        b.properties == a.properties
    } else {
        &&& b.properties@.len() == a.properties@.len()
        &&& forall|q: int|
            0 <= q < a.properties@.len() && q != k ==> b.properties@[q] == a.properties@[q]
        &&& b.properties@[k].name == a.properties@[k].name
        &&& opt_view(b.properties@[k].value) == Some(idx)
    }
}

/// `new` equals `old` except, when `old` has a `Data` property, for the mod
/// list of that property.
pub open spec fn only_data_mods_changed(old: SettingsData, new: SettingsData) -> bool {
    let d = data_index(old);
    &&& new.template == old.template
    &&& new.properties@.len() == old.properties@.len()
    &&& forall|j: int|
        0 <= j < old.properties@.len() && j != d ==> new.properties@[j] == old.properties@[j]
    &&& d >= 0 ==> {
        &&& new.properties@[d].name == old.properties@[d].name
        &&& new.properties@[d].value == old.properties@[d].value
    }
}

pub open spec fn data_mods(root: SettingsData) -> Seq<ModEntry> {
    root.properties@[data_index(root)].mods@
}

/// Makes `e`'s index and `ModPriority` the decimal text of `n`.
pub fn renumber_entry(e: &mut ModEntry, n: usize)
    ensures
        renumbered(*old(e), *final(e), decimal(n as nat)),
{
    let text = usize_to_string(n);
    let copy = owned(text.as_str());
    e.index = text;
    match find_prop(&e.properties, "ModPriority") {
        Some(k) => {
            e.properties[k].value = Some(copy);
        },
        None => {},
    }
}

// ---------------------------------------------------------------------------
// Delete
// ---------------------------------------------------------------------------

/// The entries of `mods` whose name does not equal `name` ignoring ASCII
/// case (an entry without a name has the empty name), in order.
pub open spec fn kept_after_delete(mods: Seq<ModEntry>, name: Seq<char>) -> Seq<ModEntry>
    decreases mods.len(),
{
    if mods.len() == 0 {
        Seq::empty()
    } else {
        let rest = kept_after_delete(mods.drop_last(), name);
        if eq_ignore_ascii_case_spec(name_or_empty(mods.last()), name) {
            rest
        } else {
            rest.push(mods.last())
        }
    }
}

/// Each entry paired with the priority it sorts by.
pub open spec fn keyed_by_priority(mods: Seq<ModEntry>) -> Seq<(u32, ModEntry)> {
    Seq::new(mods.len(), |i: int| (priority_key(mods[i]), mods[i]))
}

/// The entries left after deleting `name`, stably sorted by priority.
pub open spec fn delete_order(mods: Seq<ModEntry>, name: Seq<char>) -> Seq<ModEntry> {
    stable_sort(keyed_by_priority(kept_after_delete(mods, name))).map_values(
        |p: (u32, ModEntry)| p.1,
    )
}

/// `after` is `before` with the mod `mod_name` deleted: every entry of the
/// `Data` list whose name equals it ignoring ASCII case is gone, the rest are
/// stably sorted by priority and numbered from 0. Without a `Data` property
/// nothing changes.
pub open spec fn deleted_mod(before: SettingsData, mod_name: Seq<char>, after: SettingsData) -> bool {
    &&& data_index(before) < 0 ==> after == before
    &&& data_index(before) >= 0 ==> {
        let order = delete_order(data_mods(before), mod_name);
        let mods = after.properties@[data_index(before)].mods@;
        &&& only_data_mods_changed(before, after)
        &&& mods.len() == order.len()
        &&& forall|i: int| 0 <= i < order.len() ==> with_index(order[i], mods[i], decimal(i as nat))
    }
}

/// Removes every mod of the `Data` list whose name equals `mod_name` ignoring
/// ASCII case, sorts the rest by priority (stable; entries without a valid
/// priority last) and sets each entry's index to its new position.
/// Without a `Data` property nothing changes.
pub fn delete_mod_and_reindex(root: &mut SettingsData, mod_name: &str)
    ensures
        deleted_mod(*old(root), mod_name@, *final(root)),
{
    let d = match find_top(&root.properties, "Data") {
        Some(d) => d,
        None => {
            return;
        },
    };
    let ghost old_root = *root;
    let mut taken: Vec<ModEntry> = Vec::new();
    std::mem::swap(&mut taken, &mut root.properties[d].mods);
    let ghost orig = taken@;
    let ghost mut done: int = 0;
    let mut keyed: Vec<(u32, ModEntry)> = Vec::new();
    assert(orig.subrange(0, 0) =~= Seq::<ModEntry>::empty());
    assert(keyed@ =~= keyed_by_priority(kept_after_delete(orig.subrange(0, 0), mod_name@)));
    while taken.len() > 0
        invariant
            0 <= done <= orig.len(),
            taken@ == orig.subrange(done, orig.len() as int),
            keyed@ == keyed_by_priority(kept_after_delete(orig.subrange(0, done), mod_name@)),
        decreases taken.len(),
    {
        let e = taken.remove(0);
        let ghost prefix = orig.subrange(0, done + 1);
        assert(prefix.drop_last() =~= orig.subrange(0, done));
        assert(prefix.last() == e);
        let name = entry_name_or_empty(&e);
        if !eq_ignore_ascii_case(name.as_str(), mod_name) {
            let k = entry_priority(&e);
            let ghost before = keyed@;
            keyed.push((k, e));
            assert(keyed@ =~= keyed_by_priority(kept_after_delete(prefix, mod_name@)));
        }
        proof {
            done = done + 1;
        }
        assert(taken@ =~= orig.subrange(done, orig.len() as int));
    }
    assert(orig.subrange(0, done) =~= orig);
    let mut sorted = stable_sort_by_key(keyed);
    let slen = sorted.len();
    let ghost s = sorted@;
    let mut result: Vec<ModEntry> = Vec::new();
    let mut i: usize = 0;
    while sorted.len() > 0
        invariant
            i <= s.len(),
            s.len() <= usize::MAX,
            sorted@ == s.subrange(i as int, s.len() as int),
            result@.len() == i,
            forall|k: int| 0 <= k < i ==> with_index(s[k].1, result@[k], decimal(k as nat)),
        decreases sorted.len(),
    {
        let (_, mut e) = sorted.remove(0);
        e.index = usize_to_string(i);
        result.push(e);
        i = i + 1;
        assert(sorted@ =~= s.subrange(i as int, s.len() as int));
    }
    root.properties[d].mods = result;
}

// ---------------------------------------------------------------------------
// Reorder
// ---------------------------------------------------------------------------

/// The mods keyed by their exact name (empty when missing); of several
/// entries with one name the last one is kept.
pub open spec fn entries_by_name(m: Seq<ModEntry>) -> Map<Seq<char>, ModEntry>
    decreases m.len(),
{
    if m.len() == 0 {
        Map::empty()
    } else {
        entries_by_name(m.drop_last()).insert(name_or_empty(m.last()), m.last())
    }
}

/// Walks the first `n` requested names, upper-cased: each one still present
/// among the remaining entries is taken out and paired with its position in
/// the request list. Gives the taken entries and what remains.
pub open spec fn reorder_state(
    table: Map<Seq<char>, ModEntry>,
    upper: Seq<Seq<char>>,
    n: nat,
) -> (Seq<(ModEntry, nat)>, Map<Seq<char>, ModEntry>)
    decreases n,
{
    if n == 0 {
        (Seq::empty(), table)
    } else {
        let prev = reorder_state(table, upper, (n - 1) as nat);
        let key = upper[n - 1];
        if prev.1.contains_key(key) {
            (prev.0.push((prev.1[key], (n - 1) as nat)), prev.1.remove(key))
        } else {
            prev
        }
    }
}

pub open spec fn upper_names(names: Seq<String>) -> Seq<Seq<char>> {
    Seq::new(names.len(), |i: int| unicode_upper(names[i]@))
}

/// The result of reordering `mods` by `names`: the taken entries come first,
/// renumbered to their position in `names`; then every remaining entry once,
/// in some order.
pub open spec fn reorder_result(mods: Seq<ModEntry>, names: Seq<String>, after: Seq<ModEntry>) -> bool {
    let upper = upper_names(names);
    let st = reorder_state(entries_by_name(mods), upper, upper.len());
    let picks = st.0;
    let rest = st.1;
    &&& picks.len() <= after.len()
    &&& forall|i: int|
        0 <= i < picks.len() ==> renumbered(picks[i].0, after[i], decimal(picks[i].1))
    &&& forall|i: int|
        picks.len() <= i < after.len() ==> {
            &&& rest.contains_key(name_or_empty(after[i]))
            &&& rest[name_or_empty(after[i])] == after[i]
        }
    &&& forall|i: int, j: int|
        picks.len() <= i < j < after.len() ==> name_or_empty(after[i]) != name_or_empty(after[j])
    &&& forall|k: Seq<char>|
        rest.contains_key(k) ==> exists|i: int|
            picks.len() <= i < after.len() && name_or_empty(after[i]) == k
}

spec fn keys_unique(t: Seq<(String, ModEntry)>) -> bool {
    forall|i: int, j: int| 0 <= i < t.len() && 0 <= j < t.len() && i != j ==> t[i].0@ != t[j].0@
}

spec fn keys_match(t: Seq<(String, ModEntry)>) -> bool {
    forall|i: int| 0 <= i < t.len() ==> t[i].0@ == name_or_empty(#[trigger] t[i].1)
}

spec fn has_key(t: Seq<(String, ModEntry)>, k: Seq<char>) -> bool {
    exists|i: int| 0 <= i < t.len() && t[i].0@ == k
}

spec fn table_map(t: Seq<(String, ModEntry)>) -> Map<Seq<char>, ModEntry> {
    Map::new(
        |k: Seq<char>| has_key(t, k),
        |k: Seq<char>| t[choose|i: int| 0 <= i < t.len() && t[i].0@ == k].1,
    )
}

proof fn lemma_table_lookup(t: Seq<(String, ModEntry)>, i: int)
    requires
        keys_unique(t),
        0 <= i < t.len(),
    ensures
        table_map(t).contains_key(t[i].0@),
        table_map(t)[t[i].0@] == t[i].1,
{
    let k = t[i].0@;
    assert(has_key(t, k));
    let c = choose|c: int| 0 <= c < t.len() && t[c].0@ == k;
    assert(c == i);
}

proof fn lemma_table_push(t: Seq<(String, ModEntry)>, s: String, e: ModEntry)
    requires
        keys_unique(t),
        !has_key(t, s@),
    ensures
        keys_unique(t.push((s, e))),
        table_map(t.push((s, e))) == table_map(t).insert(s@, e),
{
    let u = t.push((s, e));
    assert forall|i: int, j: int| 0 <= i < u.len() && 0 <= j < u.len() && i != j implies u[i].0@
        != u[j].0@ by {
        if i < t.len() && j < t.len() {
            assert(u[i] == t[i] && u[j] == t[j]);
        } else if i < t.len() {
            assert(u[i] == t[i]);
        } else {
            assert(u[j] == t[j]);
        }
    }
    assert forall|k: Seq<char>| #![auto] has_key(u, k) <==> (has_key(t, k) || k == s@) by {
        if has_key(t, k) {
            let w = choose|w: int| 0 <= w < t.len() && t[w].0@ == k;
            assert(u[w] == t[w]);
        }
        if has_key(u, k) && k != s@ {
            let w = choose|w: int| 0 <= w < u.len() && u[w].0@ == k;
            assert(w < t.len());
            assert(u[w] == t[w]);
        }
        if k == s@ {
            assert(u[t.len() as int].0@ == k);
        }
    }
    assert forall|k: Seq<char>| table_map(u).contains_key(k) implies table_map(u)[k] == table_map(
        t,
    ).insert(s@, e)[k] by {
        let c = choose|c: int| 0 <= c < u.len() && u[c].0@ == k;
        lemma_table_lookup(u, c);
        if c < t.len() {
            assert(u[c] == t[c]);
            lemma_table_lookup(t, c);
        }
    }
    assert(table_map(u) =~= table_map(t).insert(s@, e));
}

proof fn lemma_table_set(t: Seq<(String, ModEntry)>, i: int, e: ModEntry)
    requires
        keys_unique(t),
        0 <= i < t.len(),
    ensures
        keys_unique(t.update(i, (t[i].0, e))),
        table_map(t.update(i, (t[i].0, e))) == table_map(t).insert(t[i].0@, e),
{
    let u = t.update(i, (t[i].0, e));
    assert forall|a: int, b: int| 0 <= a < u.len() && 0 <= b < u.len() && a != b implies u[a].0@
        != u[b].0@ by {
        assert(u[a].0 == t[a].0 && u[b].0 == t[b].0);
    }
    assert forall|k: Seq<char>| #![auto] has_key(u, k) <==> has_key(t, k) by {
        if has_key(t, k) {
            let w = choose|w: int| 0 <= w < t.len() && t[w].0@ == k;
            assert(u[w].0 == t[w].0);
        }
        if has_key(u, k) {
            let w = choose|w: int| 0 <= w < u.len() && u[w].0@ == k;
            assert(u[w].0 == t[w].0);
        }
    }
    assert forall|k: Seq<char>| table_map(u).contains_key(k) implies table_map(u)[k] == table_map(
        t,
    ).insert(t[i].0@, e)[k] by {
        let c = choose|c: int| 0 <= c < u.len() && u[c].0@ == k;
        lemma_table_lookup(u, c);
        if c != i {
            lemma_table_lookup(t, c);
        }
    }
    assert(table_map(u) =~= table_map(t).insert(t[i].0@, e));
}

proof fn lemma_table_remove(t: Seq<(String, ModEntry)>, i: int)
    requires
        keys_unique(t),
        0 <= i < t.len(),
    ensures
        keys_unique(t.remove(i)),
        table_map(t.remove(i)) == table_map(t).remove(t[i].0@),
{
    let u = t.remove(i);
    let ki = t[i].0@;
    assert forall|a: int| 0 <= a < u.len() implies #[trigger] u[a] == (if a < i {
        t[a]
    } else {
        t[a + 1]
    }) by {}
    assert forall|a: int, b: int| 0 <= a < u.len() && 0 <= b < u.len() && a != b implies u[a].0@
        != u[b].0@ by {
        let a2 = if a < i { a } else { a + 1 };
        let b2 = if b < i { b } else { b + 1 };
        assert(u[a] == t[a2] && u[b] == t[b2]);
    }
    assert forall|k: Seq<char>| #![auto] has_key(u, k) <==> (has_key(t, k) && k != ki) by {
        if has_key(t, k) && k != ki {
            let w = choose|w: int| 0 <= w < t.len() && t[w].0@ == k;
            assert(w != i);
            let w2 = if w < i { w } else { w - 1 };
            assert(u[w2] == t[w]);
        }
        if has_key(u, k) {
            let w = choose|w: int| 0 <= w < u.len() && u[w].0@ == k;
            let w2 = if w < i { w } else { w + 1 };
            assert(u[w] == t[w2]);
            assert(w2 != i);
        }
    }
    assert forall|k: Seq<char>| table_map(u).contains_key(k) implies table_map(u)[k] == table_map(
        t,
    ).remove(ki)[k] by {
        let c = choose|c: int| 0 <= c < u.len() && u[c].0@ == k;
        lemma_table_lookup(u, c);
        let c2 = if c < i { c } else { c + 1 };
        assert(u[c] == t[c2]);
        lemma_table_lookup(t, c2);
    }
    assert(table_map(u) =~= table_map(t).remove(ki));
}

fn find_key(t: &Vec<(String, ModEntry)>, key: &str) -> (r: Option<usize>)
    ensures
        match r {
            Some(i) => i < t.len() && t@[i as int].0@ == key@,
            None => !has_key(t@, key@),
        },
{
    let mut i: usize = 0;
    while i < t.len()
        invariant
            i <= t.len(),
            forall|j: int| 0 <= j < i ==> t@[j].0@ != key@,
        decreases t.len() - i,
    {
        if str_eq(t[i].0.as_str(), key) {
            return Some(i);
        }
        i = i + 1;
    }
    None
}

/// `after` is `before` with the mods of the `Data` list reordered by `names`
/// (see `reorder_mods`). Without a `Data` property nothing changes.
pub open spec fn reordered_mods(before: SettingsData, names: Seq<String>, after: SettingsData) -> bool {
    &&& data_index(before) < 0 ==> after == before
    &&& data_index(before) >= 0 ==> {
        &&& only_data_mods_changed(before, after)
        &&& reorder_result(data_mods(before), names, after.properties@[data_index(before)].mods@)
    }
}

/// Moves the named mods to the front in the given order. Each name is
/// upper-cased and matched exactly against the entry names (an entry without
/// a name counts as the empty name; of several entries with one name only the
/// last survives). A matched entry gets its index and `ModPriority` set to the
/// name's position in `ordered_mod_names`. The unmatched entries follow, each
/// once. Without a `Data` property nothing changes.
pub fn reorder_mods(root: &mut SettingsData, ordered_mod_names: &[String])
    ensures
        reordered_mods(*old(root), ordered_mod_names@, *final(root)),
{
    let d = match find_top(&root.properties, "Data") {
        Some(d) => d,
        None => {
            return;
        },
    };
    let mut taken: Vec<ModEntry> = Vec::new();
    std::mem::swap(&mut taken, &mut root.properties[d].mods);
    let ghost orig = taken@;
    let ghost mut done: int = 0;
    let mut table: Vec<(String, ModEntry)> = Vec::new();
    assert(orig.subrange(0, 0) =~= Seq::<ModEntry>::empty());
    assert(table_map(table@) =~= Map::<Seq<char>, ModEntry>::empty());
    while taken.len() > 0
        invariant
            0 <= done <= orig.len(),
            taken@ == orig.subrange(done, orig.len() as int),
            keys_unique(table@),
            keys_match(table@),
            table_map(table@) == entries_by_name(orig.subrange(0, done)),
        decreases taken.len(),
    {
        let e = taken.remove(0);
        let ghost prefix = orig.subrange(0, done + 1);
        assert(prefix.drop_last() =~= orig.subrange(0, done));
        assert(prefix.last() == e);
        let key = entry_name_or_empty(&e);
        match find_key(&table, key.as_str()) {
            Some(idx) => {
                proof {
                    lemma_table_set(table@, idx as int, e);
                }
                let ghost before = table@;
                table[idx].1 = e;
                assert(table@ == before.update(idx as int, (before[idx as int].0, e)));
                assert(keys_match(table@)) by {
                    assert forall|x: int| 0 <= x < table@.len() implies table@[x].0@ == name_or_empty(
                        #[trigger] table@[x].1,
                    ) by {
                        if x != idx {
                            assert(table@[x] == before[x]);
                        }
                    }
                }
            },
            None => {
                proof {
                    lemma_table_push(table@, key, e);
                }
                table.push((key, e));
            },
        }
        proof {
            done = done + 1;
        }
        assert(taken@ =~= orig.subrange(done, orig.len() as int));
    }
    assert(orig.subrange(0, done) =~= orig);
    let ghost upper = upper_names(ordered_mod_names@);
    let ghost init = entries_by_name(orig);
    let mut out: Vec<ModEntry> = Vec::new();
    let mut k: usize = 0;
    while k < ordered_mod_names.len()
        invariant
            k <= ordered_mod_names@.len(),
            upper == upper_names(ordered_mod_names@),
            keys_unique(table@),
            keys_match(table@),
            table_map(table@) == reorder_state(init, upper, k as nat).1,
            out@.len() == reorder_state(init, upper, k as nat).0.len(),
            forall|i: int|
                0 <= i < out@.len() ==> renumbered(
                    #[trigger] reorder_state(init, upper, k as nat).0[i].0,
                    out@[i],
                    decimal(reorder_state(init, upper, k as nat).0[i].1),
                ),
        decreases ordered_mod_names@.len() - k,
    {
        let u = to_uppercase(ordered_mod_names[k].as_str());
        let ghost prev = reorder_state(init, upper, k as nat);
        assert(upper[k as int] == u@);
        match find_key(&table, u.as_str()) {
            Some(idx) => {
                let ghost before = table@;
                proof {
                    lemma_table_lookup(before, idx as int);
                    lemma_table_remove(before, idx as int);
                }
                let (_, mut e) = table.remove(idx);
                assert(keys_match(table@)) by {
                    assert forall|x: int| 0 <= x < table@.len() implies table@[x].0@
                        == name_or_empty(#[trigger] table@[x].1) by {
                        if x < idx {
                            assert(table@[x] == before[x]);
                        } else {
                            assert(table@[x] == before[x + 1]);
                        }
                    }
                }
                renumber_entry(&mut e, k);
                out.push(e);
            },
            None => {
                assert(!table_map(table@).contains_key(u@));
            },
        }
        k = k + 1;
    }
    let ghost picks_len = out@.len() as int;
    let ghost t = table@;
    let ghost st = reorder_state(init, upper, upper.len());
    assert(upper.len() == k);
    while table.len() > 0
        invariant
            table@.len() <= t.len(),
            table@ == t.subrange(t.len() - table@.len(), t.len() as int),
            out@.len() == picks_len + (t.len() - table@.len()),
            picks_len == st.0.len(),
            forall|i: int|
                0 <= i < picks_len ==> renumbered(#[trigger] st.0[i].0, out@[i], decimal(st.0[i].1)),
            forall|x: int| 0 <= x < t.len() - table@.len() ==> out@[picks_len + x] == t[x].1,
        decreases table.len(),
    {
        let ghost consumed = t.len() - table@.len();
        let (_, e) = table.remove(0);
        assert(e == t[consumed].1);
        out.push(e);
        assert(table@ =~= t.subrange(t.len() - table@.len(), t.len() as int));
    }
    proof {
        assert forall|i: int| picks_len <= i < out@.len() implies {
            &&& st.1.contains_key(name_or_empty(out@[i]))
            &&& st.1[name_or_empty(out@[i])] == out@[i]
        } by {
            let x = i - picks_len;
            assert(out@[picks_len + x] == t[x].1);
            lemma_table_lookup(t, x);
        }
        assert forall|i: int, j: int|
            picks_len <= i < j < out@.len() implies name_or_empty(out@[i]) != name_or_empty(out@[j])
            by {
            assert(out@[picks_len + (i - picks_len)] == t[i - picks_len].1);
            assert(out@[picks_len + (j - picks_len)] == t[j - picks_len].1);
        }
        assert forall|key: Seq<char>| st.1.contains_key(key) implies exists|i: int|
            picks_len <= i < out@.len() && name_or_empty(out@[i]) == key by {
            assert(has_key(t, key));
            let x = choose|x: int| 0 <= x < t.len() && t[x].0@ == key;
            assert(out@[picks_len + x] == t[x].1);
        }
    }
    root.properties[d].mods = out;
}

// ---------------------------------------------------------------------------
// Rename
// ---------------------------------------------------------------------------

/// A `Name` property whose value equals `old_name` ignoring ASCII case.
pub open spec fn rename_matches(p: ModProperty, old_name: Seq<char>) -> bool {
    &&& p.name@ == "Name"@
    &&& match p.value {
        Some(v) => eq_ignore_ascii_case_spec(v@, old_name),
        None => false,
    }
}

/// Property `j` of entry `i` is the first matching property, taking the
/// entries in order and the properties of each entry in order.
pub open spec fn is_rename_target(mods: Seq<ModEntry>, old_name: Seq<char>, i: int, j: int) -> bool {
    &&& 0 <= i < mods.len()
    &&& 0 <= j < mods[i].properties@.len()
    &&& rename_matches(mods[i].properties@[j], old_name)
    &&& forall|a: int, b: int|
        (0 <= a < i && 0 <= b < mods[a].properties@.len()) || (a == i && 0 <= b < j)
            ==> !rename_matches(#[trigger] mods[a].properties@[b], old_name)
}

pub open spec fn has_rename_target(mods: Seq<ModEntry>, old_name: Seq<char>) -> bool {
    exists|i: int, j: int| is_rename_target(mods, old_name, i, j)
}

/// The message of a failed rename.
pub open spec fn rename_not_found_message(old_name: Seq<char>) -> Seq<char> {
    "Could not find a mod entry with the name '"@ + old_name + "' in the XML file."@
}

/// `new` equals `old` except that property `j` of mod `i` of the `Data`
/// list has the value `v`.
pub open spec fn only_prop_value_changed(
    old: SettingsData,
    new: SettingsData,
    i: int,
    j: int,
    v: Seq<char>,
) -> bool {
    let d = data_index(old);
    let om = old.properties@[d].mods@;
    let nm = new.properties@[d].mods@;
    &&& only_data_mods_changed(old, new)
    &&& nm.len() == om.len()
    &&& forall|k: int| 0 <= k < om.len() && k != i ==> nm[k] == om[k]
    &&& nm[i].entry_name == om[i].entry_name
    &&& nm[i].entry_value == om[i].entry_value
    &&& nm[i].index == om[i].index
    &&& nm[i].properties@.len() == om[i].properties@.len()
    &&& forall|k: int|
        0 <= k < om[i].properties@.len() && k != j ==> nm[i].properties@[k]
            == om[i].properties@[k]
    &&& nm[i].properties@[j].name == om[i].properties@[j].name
    &&& opt_view(nm[i].properties@[j].value) == Some(v)
}

fn rename_not_found(old_name: &str) -> (r: String)
    ensures
        r@ == rename_not_found_message(old_name@),
{
    concat3("Could not find a mod entry with the name '", old_name, "' in the XML file.")
}

/// The outcome `r`, `after` of renaming `old_name` to `new_name` in `before`:
/// it succeeds exactly when the `Data` list has an entry of that name
/// (ignoring ASCII case), and then the first such `Name` value becomes the
/// upper-cased new name; else nothing changes and the error names the mod.
pub open spec fn renamed_mod(
    before: SettingsData,
    old_name: Seq<char>,
    new_name: Seq<char>,
    r: Result<(), String>,
    after: SettingsData,
) -> bool {
    &&& r.is_ok() <==> (data_index(before) >= 0 && has_rename_target(data_mods(before), old_name))
    &&& match r {
        Ok(()) => forall|i: int, j: int|
            is_rename_target(data_mods(before), old_name, i, j) ==> only_prop_value_changed(
                before,
                after,
                i,
                j,
                unicode_upper(new_name),
            ),
        Err(msg) => after == before && msg@ == rename_not_found_message(old_name),
    }
}

/// Renames the first `Name` property of the `Data` list whose value equals
/// `old_name` ignoring ASCII case to the upper-cased `new_name`. Fails,
/// changing nothing, when there is no `Data` property or no such entry.
pub fn rename_mod_in_xml(root: &mut SettingsData, old_name: &str, new_name: &str) -> (r: Result<
    (),
    String,
>)
    ensures
        renamed_mod(*old(root), old_name@, new_name@, r, *final(root)),
{
    let d = match find_top(&root.properties, "Data") {
        Some(d) => d,
        None => {
            return Err(rename_not_found(old_name));
        },
    };
    let ghost mods = root.properties@[d as int].mods@;
    let n = root.properties[d].mods.len();
    let mut i: usize = 0;
    while i < n
        invariant
            *root == *old(root),
            d < root.properties@.len(),
            d == data_index(*root),
            mods == root.properties@[d as int].mods@,
            n == mods.len(),
            i <= n,
            forall|a: int, b: int|
                0 <= a < i && 0 <= b < mods[a].properties@.len() ==> !rename_matches(
                    #[trigger] mods[a].properties@[b],
                    old_name@,
                ),
        decreases n - i,
    {
        let m = root.properties[d].mods[i].properties.len();
        let mut j: usize = 0;
        while j < m
            invariant
                *root == *old(root),
                d < root.properties@.len(),
                d == data_index(*root),
                mods == root.properties@[d as int].mods@,
                n == mods.len(),
                i < n,
                m == mods[i as int].properties@.len(),
                j <= m,
                forall|a: int, b: int|
                    (0 <= a < i && 0 <= b < mods[a].properties@.len()) || (a == i && 0 <= b < j)
                        ==> !rename_matches(#[trigger] mods[a].properties@[b], old_name@),
            decreases m - j,
        {
            let hit = {
                let p = &root.properties[d].mods[i].properties[j];
                if str_eq(p.name.as_str(), "Name") {
                    match &p.value {
                        Some(v) => eq_ignore_ascii_case(v.as_str(), old_name),
                        None => false,
                    }
                } else {
                    false
                }
            };
            if hit {
                let upper = to_uppercase(new_name);
                let ghost before = *root;
                root.properties[d].mods[i].properties[j].value = Some(upper);
                proof {
                    assert(is_rename_target(mods, old_name@, i as int, j as int));
                    assert forall|a: int, b: int|
                        is_rename_target(mods, old_name@, a, b) implies a == i && b == j by {
                        if a < i {
                            assert(!rename_matches(mods[a].properties@[b], old_name@));
                        } else if a > i {
                            assert(!rename_matches(mods[i as int].properties@[j as int], old_name@));
                        } else if b < j {
                        } else if b > j {
                            assert(!rename_matches(mods[i as int].properties@[j as int], old_name@));
                        }
                    }
                }
                return Ok(());
            }
            j = j + 1;
        }
        i = i + 1;
    }
    proof {
        assert forall|a: int, b: int| !is_rename_target(mods, old_name@, a, b) by {
            if is_rename_target(mods, old_name@, a, b) {
                assert(!rename_matches(mods[a].properties@[b], old_name@));
            }
        }
    }
    Err(rename_not_found(old_name))
}

} // verus!
