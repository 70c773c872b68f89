//! Association tables: the graph's edge and node maps, the per-instance
//! caches and the parameter overlay are small key-value tables, modelled as
//! sequences of pairs looked up by first match on the key's view.

use vstd::prelude::*;

verus! {

/// Executable equality that decides equality of views.
pub trait KeyEq: View + Sized {
    fn key_eq(&self, other: &Self) -> (r: bool)
        ensures
            r == (self@ == other@),
    ;
}

impl KeyEq for String {
    fn key_eq(&self, other: &Self) -> (r: bool)
        ensures
            r == (self@ == other@),
    {
        self.eq(other)
    }
}

/// The view of a table: each entry's key replaced by its view.
pub open spec fn entries_view<K: View, V>(s: Seq<(K, V)>) -> Seq<(K::V, V)> {
    s.map_values(|p: (K, V)| (p.0@, p.1))
}

/// First-match lookup in a sequence of pairs.
pub open spec fn find_in<KV, V>(s: Seq<(KV, V)>, k: KV) -> Option<V>
    decreases s.len(),
{
    if s.len() == 0 {
        None
    } else if s[0].0 == k {
        Some(s[0].1)
    } else {
        find_in(s.skip(1), k)
    }
}

/// If the first match for `k` is at index `i`, the lookup returns that entry.
pub proof fn lemma_find_first<KV, V>(s: Seq<(KV, V)>, k: KV, i: int)
    requires
        0 <= i < s.len(),
        forall|j: int| 0 <= j < i ==> s[j].0 != k,
        s[i].0 == k,
    ensures
        find_in(s, k) == Some(s[i].1),
    decreases i,
{
    if i > 0 {
        lemma_find_first(s.skip(1), k, i - 1);
    }
}

/// If no entry's key is `k`, the lookup fails.
pub proof fn lemma_find_none<KV, V>(s: Seq<(KV, V)>, k: KV)
    requires
        forall|j: int| 0 <= j < s.len() ==> s[j].0 != k,
    ensures
        find_in(s, k) is None,
    decreases s.len(),
{
    if s.len() > 0 {
        lemma_find_none(s.skip(1), k);
    }
}

/// Appending an entry changes only the lookup of its key, and only when that
/// key was absent.
pub proof fn lemma_find_push<KV, V>(s: Seq<(KV, V)>, p: (KV, V))
    ensures
        forall|q: KV|
            #[trigger] find_in(s.push(p), q) == if find_in(s, q) is Some {
                find_in(s, q)
            } else if p.0 == q {
                Some(p.1)
            } else {
                None
            },
    decreases s.len(),
{
    if s.len() == 0 {
        assert forall|q: KV|
            #[trigger] find_in(s.push(p), q) == if find_in(s, q) is Some {
                find_in(s, q)
            } else if p.0 == q {
                Some(p.1)
            } else {
                None
            } by {
            assert(s.push(p)[0] == p);
            assert(s.push(p).skip(1) =~= Seq::<(KV, V)>::empty());
            if p.0 == q {
                assert(find_in(s.push(p), q) == Some(p.1));
            } else {
                assert(find_in(s.push(p), q) == find_in(s.push(p).skip(1), q));
                assert(find_in(s.push(p), q) is None);
            }
        }
    } else {
        lemma_find_push(s.skip(1), p);
        assert forall|q: KV|
            #[trigger] find_in(s.push(p), q) == if find_in(s, q) is Some {
                find_in(s, q)
            } else if p.0 == q {
                Some(p.1)
            } else {
                None
            } by {
            assert(s.push(p).skip(1) =~= s.skip(1).push(p));
            assert(s.push(p)[0] == s[0]);
            if s[0].0 == q {
                assert(find_in(s.push(p), q) == Some(s[0].1));
                assert(find_in(s, q) == Some(s[0].1));
            } else {
                assert(find_in(s.push(p), q) == find_in(s.skip(1).push(p), q));
                assert(find_in(s, q) == find_in(s.skip(1), q));
            }
        }
    }
}

/// Replacing the first entry for a key changes only that key's lookup.
pub proof fn lemma_find_update<KV, V>(s: Seq<(KV, V)>, i: int, p: (KV, V))
    requires
        0 <= i < s.len(),
        forall|j: int| 0 <= j < i ==> s[j].0 != p.0,
        s[i].0 == p.0,
    ensures
        find_in(s.update(i, p), p.0) == Some(p.1),
        forall|q: KV| q != p.0 ==> #[trigger] find_in(s.update(i, p), q) == find_in(s, q),
    decreases i,
{
    if i == 0 {
        assert(s.update(0, p)[0] == p);
        assert forall|q: KV| q != p.0 implies #[trigger] find_in(s.update(0, p), q) == find_in(
            s,
            q,
        ) by {
            assert(s.update(0, p).skip(1) =~= s.skip(1));
        }
    } else {
        lemma_find_update(s.skip(1), i - 1, p);
        assert(s.update(i, p)[0] == s[0]);
        assert(s.update(i, p).skip(1) =~= s.skip(1).update(i - 1, p));
        assert forall|q: KV| q != p.0 implies #[trigger] find_in(s.update(i, p), q) == find_in(
            s,
            q,
        ) by {
            assert(find_in(s.update(i, p).skip(1), q) == find_in(s.skip(1), q));
        }
    }
}

/// Looks a key up in a table, returning a reference to the stored value.
pub fn table_get<'a, K: KeyEq, V>(t: &'a Vec<(K, V)>, k: &K) -> (r: Option<&'a V>)
    ensures
        match r {
            Some(v) => find_in(entries_view(t@), k@) == Some(*v),
            None => find_in(entries_view(t@), k@) is None,
        },
{
    let ghost s = entries_view(t@);
    let mut i: usize = 0;
    while i < t.len()
        invariant
            i <= t.len(),
            s == entries_view(t@),
            forall|j: int| 0 <= j < i ==> s[j].0 != k@,
        decreases t.len() - i,
    {
        if t[i].0.key_eq(k) {
            proof {
                lemma_find_first(s, k@, i as int);
            }
            return Some(&t[i].1);
        }
        i = i + 1;
    }
    proof {
        lemma_find_none(s, k@);
    }
    None
}

/// Whether a key is present in a table.
pub fn table_contains<K: KeyEq, V>(t: &Vec<(K, V)>, k: &K) -> (r: bool)
    ensures
        r == (find_in(entries_view(t@), k@) is Some),
{
    table_get(t, k).is_some()
}

/// Inserts or replaces the entry for a key; every other key's lookup is
/// unchanged.
pub fn table_set<K: KeyEq, V>(t: &mut Vec<(K, V)>, k: K, v: V)
    ensures
        find_in(entries_view(final(t)@), k@) == Some(v),
        forall|q: K::V|
            q != k@ ==> #[trigger] find_in(entries_view(final(t)@), q) == find_in(
                entries_view(old(t)@),
                q,
            ),
{
    let ghost s0 = entries_view(t@);
    let mut i: usize = 0;
    while i < t.len()
        invariant
            i <= t.len(),
            t@ == old(t)@,
            s0 == entries_view(t@),
            forall|j: int| 0 <= j < i ==> s0[j].0 != k@,
        decreases t.len() - i,
    {
        if t[i].0.key_eq(&k) {
            let ghost pv = (k@, v);
            t.set(i, (k, v));
            proof {
                assert(entries_view(t@) =~= s0.update(i as int, pv));
                lemma_find_update(s0, i as int, pv);
            }
            return ;
        }
        i = i + 1;
    }
    let ghost pv = (k@, v);
    t.push((k, v));
    proof {
        assert(entries_view(t@) =~= s0.push(pv));
        lemma_find_push(s0, pv);
        lemma_find_none(s0, k@);
    }
}

} // verus!
