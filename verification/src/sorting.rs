//! Stable sorting of keyed items, as `sort_by_key` on a `u32` key does it.
use vstd::prelude::*;

verus! {

/// Inserts `x` after every element whose key is at most `x`'s key.
pub open spec fn sorted_insert<T>(s: Seq<(u32, T)>, x: (u32, T)) -> Seq<(u32, T)>
    decreases s.len(),
{
    if s.len() == 0 {
        seq![x]
    } else if s.last().0 <= x.0 {
        s.push(x)
    } else {
        sorted_insert(s.drop_last(), x).push(s.last())
    }
}

/// The stable sort of `s` by key: equal keys keep their relative order.
pub open spec fn stable_sort<T>(s: Seq<(u32, T)>) -> Seq<(u32, T)>
    decreases s.len(),
{
    if s.len() == 0 {
        s
    } else {
        sorted_insert(stable_sort(s.drop_last()), s.last())
    }
}

pub open spec fn keys_sorted<T>(s: Seq<(u32, T)>) -> bool {
    forall|i: int, j: int| 0 <= i <= j < s.len() ==> s[i].0 <= s[j].0
}

proof fn lemma_sorted_insert_at<T>(s: Seq<(u32, T)>, x: (u32, T), j: int)
    requires
        0 <= j <= s.len(),
        forall|k: int| j <= k < s.len() ==> s[k].0 > x.0,
        j == 0 || s[j - 1].0 <= x.0,
    ensures
        sorted_insert(s, x) == s.insert(j, x),
    decreases s.len(),
{
    if s.len() == 0 {
        assert(s.insert(j, x) =~= seq![x]);
    } else if j == s.len() {
        assert(s.insert(j, x) =~= s.push(x));
    } else {
        let t = s.drop_last();
        lemma_sorted_insert_at(t, x, j);
        assert(s.insert(j, x) =~= t.insert(j, x).push(s.last()));
    }
}

proof fn lemma_sorted_insert_facts<T>(s: Seq<(u32, T)>, x: (u32, T))
    requires
        keys_sorted(s),
    ensures
        keys_sorted(sorted_insert(s, x)),
        sorted_insert(s, x).to_multiset() == s.to_multiset().insert(x),
        sorted_insert(s, x).len() == s.len() + 1,
    decreases s.len(),
{
    broadcast use vstd::seq_lib::group_seq_properties;

    if s.len() == 0 {
        assert(seq![x] =~= Seq::<(u32, T)>::empty().push(x));
    } else if s.last().0 <= x.0 {
    } else {
        let t = s.drop_last();
        assert(keys_sorted(t));
        lemma_sorted_insert_facts(t, x);
        let r = sorted_insert(t, x);
        assert(s =~= t.push(s.last()));
        assert forall|i: int, j: int| 0 <= i <= j < r.len() + 1 implies r.push(s.last())[i].0
            <= r.push(s.last())[j].0 by {
            if j == r.len() && i < r.len() {
                // every element of r is either x or an element of t, all at most s.last()
                assert(r.to_multiset().count(r[i]) > 0);
                assert(t.push(x).to_multiset() =~= t.to_multiset().insert(x));
                if r[i] != x {
                    assert(t.to_multiset().count(r[i]) > 0);
                    assert(t.contains(r[i]));
                    let k = choose|k: int| 0 <= k < t.len() && t[k] == r[i];
                    assert(s[k] == t[k]);
                    assert(s[k].0 <= s[s.len() - 1].0);
                }
            }
        }
    }
}

/// `stable_sort(s)` orders the keys and holds exactly the items of `s`.
pub proof fn lemma_stable_sort_sorted_permutation<T>(s: Seq<(u32, T)>)
    ensures
        keys_sorted(stable_sort(s)),
        stable_sort(s).to_multiset() == s.to_multiset(),
        stable_sort(s).len() == s.len(),
    decreases s.len(),
{
    broadcast use vstd::seq_lib::group_seq_properties;

    if s.len() > 0 {
        let t = s.drop_last();
        lemma_stable_sort_sorted_permutation(t);
        lemma_sorted_insert_facts(stable_sort(t), s.last());
        assert(s =~= t.push(s.last()));
    }
}

/// `s` with `f` applied to each item, keys kept.
pub open spec fn map_items<T, U>(s: Seq<(u32, T)>, f: spec_fn(T) -> U) -> Seq<(u32, U)> {
    Seq::new(s.len(), |i: int| (s[i].0, f(s[i].1)))
}

proof fn lemma_sorted_insert_map<T, U>(s: Seq<(u32, T)>, x: (u32, T), f: spec_fn(T) -> U)
    ensures
        sorted_insert(map_items(s, f), (x.0, f(x.1))) == map_items(sorted_insert(s, x), f),
    decreases s.len(),
{
    let ms = map_items(s, f);
    if s.len() == 0 {
        assert(map_items(seq![x], f) =~= seq![(x.0, f(x.1))]);
    } else if s.last().0 <= x.0 {
        assert(ms.last().0 == s.last().0);
        assert(map_items(s.push(x), f) =~= ms.push((x.0, f(x.1))));
    } else {
        assert(ms.last().0 == s.last().0);
        assert(ms.drop_last() =~= map_items(s.drop_last(), f));
        lemma_sorted_insert_map(s.drop_last(), x, f);
        let r = sorted_insert(s.drop_last(), x);
        assert(map_items(r.push(s.last()), f) =~= map_items(r, f).push(ms.last()));
    }
}

/// Sorting commutes with changing the items but not the keys.
pub proof fn lemma_stable_sort_map<T, U>(s: Seq<(u32, T)>, f: spec_fn(T) -> U)
    ensures
        stable_sort(map_items(s, f)) == map_items(stable_sort(s), f),
    decreases s.len(),
{
    if s.len() == 0 {
        assert(map_items(s, f) =~= Seq::<(u32, U)>::empty());
        assert(map_items(stable_sort(s), f) =~= Seq::<(u32, U)>::empty());
    } else {
        let ms = map_items(s, f);
        assert(ms.drop_last() =~= map_items(s.drop_last(), f));
        lemma_stable_sort_map(s.drop_last(), f);
        lemma_sorted_insert_map(stable_sort(s.drop_last()), s.last(), f);
    }
}

/// Sorts `items` by key, keeping the order of items with equal keys.
pub fn stable_sort_by_key<T>(items: Vec<(u32, T)>) -> (r: Vec<(u32, T)>)
    ensures
        r@ == stable_sort(items@),
{
    let ghost orig = items@;
    let mut src = items;
    let mut out: Vec<(u32, T)> = Vec::new();
    let ghost mut done: int = 0;
    assert(orig.subrange(0, 0) =~= Seq::<(u32, T)>::empty());
    while src.len() > 0
        invariant
            0 <= done <= orig.len(),
            src@ == orig.subrange(done, orig.len() as int),
            out@ == stable_sort(orig.subrange(0, done)),
            keys_sorted(out@),
        decreases src.len(),
    {
        let x = src.remove(0);
        let mut j = out.len();
        while j > 0 && out[j - 1].0 > x.0
            invariant
                j <= out.len(),
                forall|k: int| j <= k < out.len() ==> out@[k].0 > x.0,
            decreases j,
        {
            j = j - 1;
        }
        proof {
            lemma_sorted_insert_at(out@, x, j as int);
            lemma_sorted_insert_facts(out@, x);
            let p = orig.subrange(0, done + 1);
            assert(p.drop_last() =~= orig.subrange(0, done));
            assert(p.last() == x);
        }
        out.insert(j, x);
        proof {
            done = done + 1;
        }
        assert(src@ =~= orig.subrange(done, orig.len() as int));
    }
    assert(orig.subrange(0, done) =~= orig);
    out
}

} // verus!
