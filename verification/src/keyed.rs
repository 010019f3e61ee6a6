//! String-keyed record lists with unique keys, kept in ascending key order,
//! viewed as finite maps.

use crate::order::{
    lemma_seq_lt_asymmetric, lemma_seq_lt_irreflexive, lemma_seq_lt_total, lemma_seq_lt_transitive, seq_lt, str_lt,
};
use vstd::prelude::*;

verus! {

/// One record of a string-keyed collection.
pub struct Keyed<V> {
    pub key: String,
    pub value: V,
}

pub open spec fn keys_unique<V>(s: Seq<Keyed<V>>) -> bool {
    forall|i: int, j: int|
        0 <= i < s.len() && 0 <= j < s.len() && i != j ==> #[trigger] s[i].key@ != #[trigger] s[j].key@
}

/// The keys ascend strictly, in the order of `seq_lt`.
pub open spec fn keys_sorted<V>(s: Seq<Keyed<V>>) -> bool {
    forall|i: int, j: int| 0 <= i < j < s.len() ==> seq_lt(#[trigger] s[i].key@, #[trigger] s[j].key@)
}

/// In a sorted list, a key of the map that sorts before the key at `i`
/// stands before `i`, and one that sorts after stands after it.
pub proof fn lemma_sorted_position<V: View>(s: Seq<Keyed<V>>, i: int, k: Seq<char>)
    requires
        keys_sorted(s),
        keys_unique(s),
        0 <= i < s.len(),
        keyed_map(s).dom().contains(k),
    ensures
        seq_lt(k, s[i].key@) ==> index_of_key(s, k) < i,
        seq_lt(s[i].key@, k) ==> index_of_key(s, k) > i,
        index_of_key(s, k) < i ==> seq_lt(k, s[i].key@),
        index_of_key(s, k) > i ==> seq_lt(s[i].key@, k),
        0 <= index_of_key(s, k) < s.len(),
        s[index_of_key(s, k)].key@ == k,
{
    let j = index_of_key(s, k);
    lemma_keyed_map_key(s, k);
    lemma_seq_lt_irreflexive(k);
    if j > i {
        assert(seq_lt(s[i].key@, s[j].key@));
        lemma_seq_lt_asymmetric(s[i].key@, k);
    } else if j < i {
        assert(seq_lt(s[j].key@, s[i].key@));
        lemma_seq_lt_asymmetric(k, s[i].key@);
    }
}

pub open spec fn has_key<V>(s: Seq<Keyed<V>>, k: Seq<char>) -> bool {
    exists|i: int| 0 <= i < s.len() && #[trigger] s[i].key@ == k
}

pub open spec fn index_of_key<V>(s: Seq<Keyed<V>>, k: Seq<char>) -> int {
    choose|i: int| 0 <= i < s.len() && #[trigger] s[i].key@ == k
}

/// The map from each key to the view of its record.
pub open spec fn keyed_map<V: View>(s: Seq<Keyed<V>>) -> Map<Seq<char>, V::V> {
    Map::new(|k: Seq<char>| has_key(s, k), |k: Seq<char>| s[index_of_key(s, k)].value@)
}

pub proof fn lemma_keyed_map_at<V: View>(s: Seq<Keyed<V>>, i: int)
    requires
        keys_unique(s),
        0 <= i < s.len(),
    ensures
        keyed_map(s).dom().contains(s[i].key@),
        keyed_map(s)[s[i].key@] == s[i].value@,
        index_of_key(s, s[i].key@) == i,
{
    assert(has_key(s, s[i].key@));
    let j = index_of_key(s, s[i].key@);
    if j != i {
        assert(s[i].key@ != s[j].key@);
    }
}

/// Every key of the map comes from some record.
pub proof fn lemma_keyed_map_key<V: View>(s: Seq<Keyed<V>>, k: Seq<char>)
    requires
        keyed_map(s).dom().contains(k),
    ensures
        0 <= index_of_key(s, k) < s.len(),
        s[index_of_key(s, k)].key@ == k,
        keyed_map(s)[k] == s[index_of_key(s, k)].value@,
{
}

pub proof fn lemma_keyed_map_insert<V: View>(s: Seq<Keyed<V>>, p: int, e: Keyed<V>)
    requires
        keys_unique(s),
        !has_key(s, e.key@),
        0 <= p <= s.len(),
    ensures
        keys_unique(s.insert(p, e)),
        keyed_map(s.insert(p, e)) =~= keyed_map(s).insert(e.key@, e.value@),
{
    let t = s.insert(p, e);
    assert forall|i: int| 0 <= i < t.len() implies #[trigger] t[i] == (if i < p {
        s[i]
    } else if i == p {
        e
    } else {
        s[i - 1]
    }) by {}
    assert forall|i: int, j: int|
        0 <= i < t.len() && 0 <= j < t.len() && i != j implies #[trigger] t[i].key@
        != #[trigger] t[j].key@ by {
        let si = if i < p { i } else { i - 1 };
        let sj = if j < p { j } else { j - 1 };
        if i != p && j != p {
            assert(si != sj);
            assert(s[si].key@ != s[sj].key@);
        } else if i == p {
            assert(s[sj].key@ != e.key@);
        } else {
            assert(s[si].key@ != e.key@);
        }
    }
    assert forall|k: Seq<char>| #[trigger] keyed_map(t).dom().contains(k) == keyed_map(
        s,
    ).insert(e.key@, e.value@).dom().contains(k) by {
        if has_key(s, k) {
            let i = index_of_key(s, k);
            if i < p {
                assert(t[i].key@ == k);
            } else {
                assert(t[i + 1].key@ == k);
            }
        }
        if has_key(t, k) {
            let j = index_of_key(t, k);
            if j < p {
                assert(s[j].key@ == k);
            } else if j > p {
                assert(s[j - 1].key@ == k);
            }
        }
        if k == e.key@ {
            assert(t[p].key@ == k);
        }
    }
    assert forall|k: Seq<char>| #[trigger] keyed_map(t).dom().contains(k) implies keyed_map(t)[k]
        == keyed_map(s).insert(e.key@, e.value@)[k] by {
        let j = index_of_key(t, k);
        lemma_keyed_map_at(t, j);
        if k != e.key@ {
            assert(j != p);
            if j < p {
                lemma_keyed_map_at(s, j);
            } else {
                lemma_keyed_map_at(s, j - 1);
            }
        }
    }
}

pub proof fn lemma_keyed_map_update<V: View>(s: Seq<Keyed<V>>, i: int, e: Keyed<V>)
    requires
        keys_unique(s),
        0 <= i < s.len(),
        e.key@ == s[i].key@,
    ensures
        keys_unique(s.update(i, e)),
        keyed_map(s.update(i, e)) =~= keyed_map(s).insert(e.key@, e.value@),
{
    let t = s.update(i, e);
    assert forall|a: int, b: int|
        0 <= a < t.len() && 0 <= b < t.len() && a != b implies #[trigger] t[a].key@
        != #[trigger] t[b].key@ by {
        assert(s[a].key@ != s[b].key@);
    }
    assert forall|k: Seq<char>| #[trigger] keyed_map(t).dom().contains(k) == keyed_map(
        s,
    ).insert(e.key@, e.value@).dom().contains(k) by {
        if has_key(s, k) {
            let j = index_of_key(s, k);
            assert(t[j].key@ == k);
        }
        if has_key(t, k) {
            let j = index_of_key(t, k);
            assert(s[j].key@ == k);
        }
        if k == e.key@ {
            assert(t[i].key@ == k);
        }
    }
    assert forall|k: Seq<char>| #[trigger] keyed_map(t).dom().contains(k) implies keyed_map(t)[k]
        == keyed_map(s).insert(e.key@, e.value@)[k] by {
        let j = index_of_key(t, k);
        lemma_keyed_map_at(t, j);
        if k != e.key@ {
            assert(j != i);
            lemma_keyed_map_at(s, j);
        }
    }
}

pub proof fn lemma_keyed_map_remove<V: View>(s: Seq<Keyed<V>>, i: int)
    requires
        keys_unique(s),
        0 <= i < s.len(),
    ensures
        keys_unique(s.remove(i)),
        keyed_map(s.remove(i)) =~= keyed_map(s).remove(s[i].key@),
{
    let t = s.remove(i);
    let k0 = s[i].key@;
    assert forall|a: int, b: int|
        0 <= a < t.len() && 0 <= b < t.len() && a != b implies #[trigger] t[a].key@
        != #[trigger] t[b].key@ by {
        let a2 = if a < i {
            a
        } else {
            a + 1
        };
        let b2 = if b < i {
            b
        } else {
            b + 1
        };
        assert(t[a] == s[a2] && t[b] == s[b2]);
        assert(s[a2].key@ != s[b2].key@);
    }
    assert forall|k: Seq<char>| #[trigger] keyed_map(t).dom().contains(k) == keyed_map(
        s,
    ).remove(k0).dom().contains(k) by {
        if has_key(t, k) {
            let j = index_of_key(t, k);
            let j2 = if j < i {
                j
            } else {
                j + 1
            };
            assert(t[j] == s[j2]);
            assert(s[j2].key@ == k);
            assert(j2 != i);
            assert(s[j2].key@ != s[i].key@);
        }
        if has_key(s, k) && k != k0 {
            let j = index_of_key(s, k);
            assert(j != i);
            if j < i {
                assert(t[j] == s[j]);
            } else {
                assert(t[j - 1] == s[j]);
            }
        }
    }
    assert forall|k: Seq<char>| #[trigger] keyed_map(t).dom().contains(k) implies keyed_map(t)[k]
        == keyed_map(s).remove(k0)[k] by {
        let j = index_of_key(t, k);
        lemma_keyed_map_at(t, j);
        let j2 = if j < i {
            j
        } else {
            j + 1
        };
        assert(t[j] == s[j2]);
        lemma_keyed_map_at(s, j2);
    }
}

/// Position of the record with key `k`, if any.
pub fn find_key<V: View>(v: &Vec<Keyed<V>>, k: &String) -> (r: Option<usize>)
    requires
        keys_unique(v@),
    ensures
        match r {
            Some(i) => {
                &&& i < v@.len()
                &&& v@[i as int].key@ == k@
                &&& keyed_map(v@).dom().contains(k@)
                &&& keyed_map(v@)[k@] == v@[i as int].value@
            },
            None => !keyed_map(v@).dom().contains(k@),
        },
{
    let mut i: usize = 0;
    while i < v.len()
        invariant
            keys_unique(v@),
            i <= v@.len(),
            forall|j: int| 0 <= j < i ==> #[trigger] v@[j].key@ != k@,
        decreases v.len() - i,
    {
        if v[i].key == *k {
            proof {
                lemma_keyed_map_at(v@, i as int);
            }
            return Some(i);
        }
        i = i + 1;
    }
    None
}

/// Insert or replace the record with key `k`; a new record goes before the
/// first record whose key sorts after it, so a sorted list stays sorted.
pub fn insert_key<V: View>(v: &mut Vec<Keyed<V>>, k: String, value: V)
    requires
        keys_unique(old(v)@),
    ensures
        keys_unique(final(v)@),
        keyed_map(final(v)@) == keyed_map(old(v)@).insert(k@, value@),
        keys_sorted(old(v)@) ==> keys_sorted(final(v)@),
{
    let found = find_key(v, &k);
    let ghost kv = k@;
    let ghost vv = value@;
    let entry = Keyed { key: k, value };
    match found {
        Some(i) => {
            proof {
                lemma_keyed_map_update(v@, i as int, entry);
            }
            let ghost s0 = v@;
            v.set(i, entry);
            assert forall|a: int| 0 <= a < v@.len() implies #[trigger] v@[a].key@ == s0[a].key@ by {}
        },
        None => {
            let mut p: usize = 0;
            while p < v.len() && !str_lt(entry.key.as_str(), v[p].key.as_str())
                invariant
                    p <= v@.len(),
                    forall|j: int| 0 <= j < p ==> !seq_lt(kv, #[trigger] v@[j].key@),
                    kv == entry.key@,
                decreases v.len() - p,
            {
                p = p + 1;
            }
            proof {
                lemma_keyed_map_insert(v@, p as int, entry);
            }
            let ghost s0 = v@;
            v.insert(p, entry);
            proof {
                if keys_sorted(s0) {
                    assert forall|a: int, b: int| 0 <= a < b < v@.len() implies seq_lt(
                        #[trigger] v@[a].key@,
                        #[trigger] v@[b].key@,
                    ) by {
                        if b == p {
                            assert(v@[a] == s0[a]);
                            assert(s0[a].key@ != kv) by {
                                if s0[a].key@ == kv {
                                    assert(has_key(s0, kv));
                                }
                            }
                            lemma_seq_lt_total(s0[a].key@, kv);
                        } else if a == p {
                            assert(v@[b] == s0[b - 1]);
                            assert(seq_lt(kv, s0[p as int].key@));
                            if b - 1 > p {
                                lemma_seq_lt_transitive(kv, s0[p as int].key@, s0[b - 1].key@);
                            }
                        } else {
                            let a2 = if a < p { a } else { a - 1 };
                            let b2 = if b < p { b } else { b - 1 };
                            assert(v@[a] == s0[a2]);
                            assert(v@[b] == s0[b2]);
                        }
                    }
                }
            }
        },
    }
}

/// Remove the record with key `k`, returning its value.
pub fn remove_key<V: View>(v: &mut Vec<Keyed<V>>, k: &String) -> (r: Option<V>)
    requires
        keys_unique(old(v)@),
    ensures
        keys_unique(final(v)@),
        keyed_map(final(v)@) == keyed_map(old(v)@).remove(k@),
        keys_sorted(old(v)@) ==> keys_sorted(final(v)@),
        match r {
            Some(x) => keyed_map(old(v)@).dom().contains(k@) && x@ == keyed_map(old(v)@)[k@],
            None => !keyed_map(old(v)@).dom().contains(k@),
        },
{
    match find_key(v, k) {
        Some(i) => {
            proof {
                lemma_keyed_map_remove(v@, i as int);
            }
            let ghost s0 = v@;
            let e = v.remove(i);
            proof {
                if keys_sorted(s0) {
                    assert forall|a: int, b: int| 0 <= a < b < v@.len() implies seq_lt(
                        #[trigger] v@[a].key@,
                        #[trigger] v@[b].key@,
                    ) by {
                        let a2 = if a < i { a } else { a + 1 };
                        let b2 = if b < i { b } else { b + 1 };
                        assert(v@[a] == s0[a2]);
                        assert(v@[b] == s0[b2]);
                    }
                }
            }
            Some(e.value)
        },
        None => {
            assert(keyed_map(v@).remove(k@) =~= keyed_map(v@));
            None
        },
    }
}

} // verus!
