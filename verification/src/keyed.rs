use vstd::prelude::*;
use crate::types::{ListingKey, Listing, RentalCredential, key_of, credential_key};

verus! {

/// Entries that are stored under a listing key carried in the entry itself.
pub trait Keyed {
    spec fn key(&self) -> ListingKey;
}

impl Keyed for Listing {
    open spec fn key(&self) -> ListingKey {
        key_of(*self)
    }
}

impl Keyed for RentalCredential {
    open spec fn key(&self) -> ListingKey {
        credential_key(*self)
    }
}

/// No two entries of `s` share a key.
pub open spec fn keys_distinct<T: Keyed>(s: Seq<T>) -> bool {
    forall|i: int, j: int|
        0 <= i < s.len() && 0 <= j < s.len() && i != j ==> #[trigger] s[i].key() != #[trigger] s[j].key()
}

/// Some entry of `s` has key `k`.
pub open spec fn has_key<T: Keyed>(s: Seq<T>, k: ListingKey) -> bool {
    exists|i: int| 0 <= i < s.len() && #[trigger] s[i].key() == k
}

/// The entries of `s` as a map from their keys.
pub open spec fn keyed_map<T: Keyed>(s: Seq<T>) -> Map<ListingKey, T> {
    Map::new(
        |k: ListingKey| has_key(s, k),
        |k: ListingKey| s[choose|i: int| 0 <= i < s.len() && #[trigger] s[i].key() == k],
    )
}

/// With distinct keys, the entry at `i` is what the map holds under its key.
pub proof fn lemma_keyed_lookup<T: Keyed>(s: Seq<T>, i: int)
    requires
        keys_distinct(s),
        0 <= i < s.len(),
    ensures
        keyed_map(s).contains_key(s[i].key()),
        keyed_map(s)[s[i].key()] == s[i],
{
    let k = s[i].key();
    assert(has_key(s, k));
    let j = choose|j: int| 0 <= j < s.len() && #[trigger] s[j].key() == k;
    assert(j == i);
}

/// Every key in the map is held by the entry stored under it.
pub proof fn lemma_keyed_entries_carry_key<T: Keyed>(s: Seq<T>, k: ListingKey)
    requires
        keyed_map(s).contains_key(k),
    ensures
        keyed_map(s)[k].key() == k,
{
    let j = choose|j: int| 0 <= j < s.len() && #[trigger] s[j].key() == k;
    assert(has_key(s, k));
}

/// Replacing an entry by one with the same key replaces it in the map.
pub proof fn lemma_keyed_update<T: Keyed>(s: Seq<T>, i: int, v: T)
    requires
        keys_distinct(s),
        0 <= i < s.len(),
        v.key() == s[i].key(),
    ensures
        keys_distinct(s.update(i, v)),
        keyed_map(s.update(i, v)) == keyed_map(s).insert(v.key(), v),
{
    let t = s.update(i, v);
    let k = v.key();
    assert forall|a: int, b: int|
        0 <= a < t.len() && 0 <= b < t.len() && a != b implies #[trigger] t[a].key() != #[trigger] t[b].key() by {
        if a != i && b != i {
            assert(t[a] == s[a] && t[b] == s[b]);
            assert(s[a].key() != s[b].key());
        } else if a == i {
            assert(t[b] == s[b]);
            assert(s[i].key() != s[b].key());
        } else {
            assert(t[a] == s[a]);
            assert(s[a].key() != s[i].key());
        }
    }
    assert forall|k2: ListingKey| has_key(t, k2) == (has_key(s, k2) || k2 == k) by {
        if has_key(t, k2) {
            let j = choose|j: int| 0 <= j < t.len() && #[trigger] t[j].key() == k2;
            if j != i {
                assert(s[j].key() == k2);
            }
        }
        if has_key(s, k2) {
            let j = choose|j: int| 0 <= j < s.len() && #[trigger] s[j].key() == k2;
            if j != i {
                assert(t[j].key() == k2);
            } else {
                assert(t[i].key() == k2);
            }
        }
        if k2 == k {
            assert(t[i].key() == k2);
        }
    }
    let m1 = keyed_map(t);
    let m2 = keyed_map(s).insert(k, v);
    assert forall|k2: ListingKey| m1.contains_key(k2) implies m1[k2] == m2[k2] by {
        let j = choose|j: int| 0 <= j < t.len() && #[trigger] t[j].key() == k2;
        lemma_keyed_lookup(t, j);
        if k2 == k {
            assert(j == i);
        } else {
            assert(j != i);
            assert(t[j] == s[j]);
            lemma_keyed_lookup(s, j);
        }
    }
    assert(m1 =~= m2);
}

/// Appending an entry under a fresh key adds it to the map.
pub proof fn lemma_keyed_push<T: Keyed>(s: Seq<T>, v: T)
    requires
        keys_distinct(s),
        !keyed_map(s).contains_key(v.key()),
    ensures
        keys_distinct(s.push(v)),
        keyed_map(s.push(v)) == keyed_map(s).insert(v.key(), v),
{
    let t = s.push(v);
    let k = v.key();
    let n = s.len() as int;
    assert forall|i: int| 0 <= i < s.len() implies #[trigger] s[i].key() != k by {
        if s[i].key() == k {
            assert(has_key(s, k));
        }
    }
    assert forall|a: int, b: int|
        0 <= a < t.len() && 0 <= b < t.len() && a != b implies #[trigger] t[a].key() != #[trigger] t[b].key() by {
        if a < n && b < n {
            assert(t[a] == s[a] && t[b] == s[b]);
            assert(s[a].key() != s[b].key());
        } else if a == n {
            assert(t[b] == s[b]);
            assert(s[b].key() != k);
        } else {
            assert(t[a] == s[a]);
            assert(s[a].key() != k);
        }
    }
    assert forall|k2: ListingKey| has_key(t, k2) == (has_key(s, k2) || k2 == k) by {
        if has_key(t, k2) {
            let j = choose|j: int| 0 <= j < t.len() && #[trigger] t[j].key() == k2;
            if j < n {
                assert(t[j] == s[j]);
                assert(s[j].key() == k2);
            }
        }
        if has_key(s, k2) {
            let j = choose|j: int| 0 <= j < s.len() && #[trigger] s[j].key() == k2;
            assert(t[j] == s[j]);
            assert(t[j].key() == k2);
        }
        if k2 == k {
            assert(t[n].key() == k2);
        }
    }
    let m1 = keyed_map(t);
    let m2 = keyed_map(s).insert(k, v);
    assert forall|k2: ListingKey| m1.contains_key(k2) implies m1[k2] == m2[k2] by {
        let j = choose|j: int| 0 <= j < t.len() && #[trigger] t[j].key() == k2;
        lemma_keyed_lookup(t, j);
        if j == n {
            assert(k2 == k);
        } else {
            assert(t[j] == s[j]);
            lemma_keyed_lookup(s, j);
        }
    }
    assert(m1 =~= m2);
}

} // verus!
