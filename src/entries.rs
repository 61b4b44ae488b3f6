//! String-keyed mappings kept as lists of pairs, where a later pair for a key
//! replaces an earlier one.

use vstd::prelude::*;

verus! {

/// A key and its value, as character sequences.
pub type PairView = (Seq<char>, Seq<char>);

/// The characters of each pair of a list of string pairs.
pub open spec fn entries_view(v: Seq<(String, String)>) -> Seq<PairView> {
    v.map_values(|p: (String, String)| (p.0@, p.1@))
}

/// The mapping that a list of pairs denotes: the last pair for a key wins.
pub open spec fn pairs_map(s: Seq<PairView>) -> Map<Seq<char>, Seq<char>>
    decreases s.len(),
{
    if s.len() == 0 {
        Map::empty()
    } else {
        pairs_map(s.drop_last()).insert(s.last().0, s.last().1)
    }
}

/// No key occurs twice.
pub open spec fn keys_unique(s: Seq<PairView>) -> bool {
    forall|i: int, j: int| 0 <= i < j < s.len() ==> s[i].0 != s[j].0
}

/// The pairs of `s` whose key is not `k`, in their order.
pub open spec fn without_key(s: Seq<PairView>, k: Seq<char>) -> Seq<PairView>
    decreases s.len(),
{
    if s.len() == 0 {
        s
    } else if s.last().0 == k {
        without_key(s.drop_last(), k)
    } else {
        without_key(s.drop_last(), k).push(s.last())
    }
}

proof fn lemma_without_key(s: Seq<PairView>, k: Seq<char>)
    ensures
        pairs_map(without_key(s, k)) == pairs_map(s).remove(k),
        forall|j: int|
            0 <= j < without_key(s, k).len() ==> s.contains(#[trigger] without_key(s, k)[j])
                && without_key(s, k)[j].0 != k,
        keys_unique(s) ==> keys_unique(without_key(s, k)),
    decreases s.len(),
{
    if s.len() == 0 {
        assert(pairs_map(s).remove(k) =~= Map::empty());
    } else {
        let p = s.drop_last();
        let l = s.last();
        lemma_without_key(p, k);
        let w = without_key(p, k);
        assert forall|j: int| 0 <= j < w.len() implies s.contains(#[trigger] w[j]) by {
            let i = choose|i: int| 0 <= i < p.len() && p[i] == w[j];
            assert(s[i] == w[j]);
        }
        if l.0 == k {
            assert(pairs_map(s).remove(k) =~= pairs_map(p).remove(k));
        } else {
            let w2 = w.push(l);
            assert(w2.drop_last() =~= w);
            assert(pairs_map(w2) =~= pairs_map(s).remove(k));
            assert forall|j: int| 0 <= j < w2.len() implies s.contains(#[trigger] w2[j]) && w2[j].0
                != k by {
                if j == w.len() {
                    assert(s[s.len() - 1] == w2[j]);
                } else {
                    assert(w2[j] == w[j]);
                }
            }
            if keys_unique(s) {
                assert(keys_unique(p));
                assert forall|a: int, b: int| 0 <= a < b < w2.len() implies w2[a].0 != w2[b].0 by {
                    if b == w.len() {
                        assert(w2[a] == w[a]);
                        let i = choose|i: int| 0 <= i < p.len() && p[i] == w[a];
                        assert(s[i] == p[i]);
                    } else {
                        assert(w2[a] == w[a] && w2[b] == w[b]);
                    }
                }
            }
        }
    }
}

/// Sets `key` to `value`, replacing the pair that held `key` before, if any.
pub fn insert_entry(entries: &mut Vec<(String, String)>, key: String, value: String)
    requires
        keys_unique(entries_view(old(entries)@)),
    ensures
        keys_unique(entries_view(final(entries)@)),
        pairs_map(entries_view(final(entries)@)) == pairs_map(entries_view(old(entries)@)).insert(
            key@,
            value@,
        ),
{
    let ghost orig = entries_view(entries@);
    let mut kept: Vec<(String, String)> = Vec::new();
    let n = entries.len();
    let mut i: usize = 0;
    while i < n
        invariant
            n == entries@.len(),
            i <= n,
            orig == entries_view(entries@),
            entries_view(kept@) == without_key(orig.take(i as int), key@),
        decreases n - i,
    {
        let ghost before = kept@;
        assert(orig.take(i + 1).drop_last() =~= orig.take(i as int));
        if entries[i].0 != key {
            let k = entries[i].0.clone();
            let v = entries[i].1.clone();
            kept.push((k, v));
            assert(entries_view(kept@) =~= entries_view(before).push(orig[i as int]));
        }
        i = i + 1;
    }
    assert(orig.take(n as int) =~= orig);
    proof {
        lemma_without_key(orig, key@);
    }
    let ghost w = kept@;
    kept.push((key, value));
    assert(entries_view(kept@) =~= entries_view(w).push((key@, value@)));
    assert(entries_view(kept@).drop_last() =~= entries_view(w));
    assert(pairs_map(entries_view(kept@)) =~= pairs_map(orig).insert(key@, value@));
    *entries = kept;
}

/// The mapping of a list of pairs, with each key once: a later pair for a key
/// replaces an earlier one.
pub fn collect_entries(pairs: &Vec<(String, String)>) -> (r: Vec<(String, String)>)
    ensures
        keys_unique(entries_view(r@)),
        pairs_map(entries_view(r@)) == pairs_map(entries_view(pairs@)),
{
    let mut r: Vec<(String, String)> = Vec::new();
    let n = pairs.len();
    let mut i: usize = 0;
    while i < n
        invariant
            n == pairs@.len(),
            i <= n,
            keys_unique(entries_view(r@)),
            pairs_map(entries_view(r@)) == pairs_map(entries_view(pairs@).take(i as int)),
        decreases n - i,
    {
        let ghost s = entries_view(pairs@);
        assert(s.take(i + 1).drop_last() =~= s.take(i as int));
        insert_entry(&mut r, pairs[i].0.clone(), pairs[i].1.clone());
        i = i + 1;
    }
    assert(entries_view(pairs@).take(n as int) =~= entries_view(pairs@));
    r
}

} // verus!
