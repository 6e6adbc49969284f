//! Small keyed tables: a vector of entries in which no address occurs twice.

use vstd::prelude::*;
use crate::identity::Identity;

verus! {

/// One entry of a table: an address and what is stored under it.
pub struct Entry<V> {
    pub key: Identity,
    pub value: V,
}

/// No address occurs twice.
pub open spec fn distinct<V>(s: Seq<Entry<V>>) -> bool {
    forall|i: int, j: int| 0 <= i < j < s.len() ==> s[i].key != s[j].key
}

/// Some entry is stored under the address.
pub open spec fn holds<V>(s: Seq<Entry<V>>, key: Identity) -> bool {
    exists|i: int| 0 <= i < s.len() && s[i].key == key
}

/// The place of an entry stored under the address.
pub open spec fn index_of<V>(s: Seq<Entry<V>>, key: Identity) -> int {
    choose|i: int| 0 <= i < s.len() && s[i].key == key
}

/// The table as a map from the addresses that occur to what is stored under them.
pub open spec fn as_map<V>(s: Seq<Entry<V>>) -> Map<Identity, V> {
    Map::new(|key: Identity| holds(s, key), |key: Identity| s[index_of(s, key)].value)
}

/// The table as balances: what is stored under an address, and zero under
/// an address that does not occur.
pub open spec fn as_balances(s: Seq<Entry<u64>>) -> Map<Identity, nat> {
    Map::total(
        |key: Identity|
            if holds(s, key) {
                s[index_of(s, key)].value as nat
            } else {
                0nat
            },
    )
}

/// The sum of everything stored.
pub open spec fn sum(s: Seq<Entry<u64>>) -> nat
    decreases s.len(),
{
    if s.len() == 0 {
        0
    } else {
        sum(s.drop_last()) + s.last().value as nat
    }
}

/// In a table without repeated addresses, an entry is found at its own place.
pub proof fn lemma_index_of<V>(s: Seq<Entry<V>>, i: int)
    requires
        distinct(s),
        0 <= i < s.len(),
    ensures
        holds(s, s[i].key),
        index_of(s, s[i].key) == i,
{
    assert(holds(s, s[i].key));
    let j = index_of(s, s[i].key);
    assert(0 <= j < s.len() && s[j].key == s[i].key);
    if j < i {
        assert(s[j].key != s[i].key);
    } else if i < j {
        assert(s[i].key != s[j].key);
    }
}

/// Replacing what is stored at one place changes the map at that address alone.
pub proof fn lemma_update_map<V>(s: Seq<Entry<V>>, i: int, value: V)
    requires
        distinct(s),
        0 <= i < s.len(),
    ensures
        distinct(s.update(i, Entry { key: s[i].key, value })),
        as_map(s.update(i, Entry { key: s[i].key, value })) == as_map(s).insert(s[i].key, value),
{
    let t = s.update(i, Entry { key: s[i].key, value });
    assert(distinct(t)) by {
        assert forall|a: int, b: int| 0 <= a < b < t.len() implies t[a].key != t[b].key by {
            assert(t[a].key == s[a].key && t[b].key == s[b].key);
        }
    }
    assert forall|key: Identity| holds(t, key) == holds(s, key) by {
        if holds(s, key) {
            let j = index_of(s, key);
            assert(t[j].key == key);
        }
        if holds(t, key) {
            let j = index_of(t, key);
            assert(s[j].key == key);
        }
    }
    assert forall|key: Identity| holds(t, key) implies #[trigger] as_map(t)[key] == as_map(s).insert(
        s[i].key,
        value,
    )[key] by {
        let j = index_of(t, key);
        assert(s[j].key == key);
        lemma_index_of(s, j);
        lemma_index_of(t, j);
    }
    assert(as_map(t) =~= as_map(s).insert(s[i].key, value));
}

/// Adding an entry under a new address adds that address to the map.
pub proof fn lemma_push_map<V>(s: Seq<Entry<V>>, entry: Entry<V>)
    requires
        distinct(s),
        !holds(s, entry.key),
    ensures
        distinct(s.push(entry)),
        as_map(s.push(entry)) == as_map(s).insert(entry.key, entry.value),
{
    let t = s.push(entry);
    assert(distinct(t)) by {
        assert forall|a: int, b: int| 0 <= a < b < t.len() implies t[a].key != t[b].key by {
            if b == s.len() {
                assert(s[a].key != entry.key);
            }
        }
    }
    assert forall|key: Identity| holds(t, key) == (holds(s, key) || key == entry.key) by {
        if holds(s, key) {
            let j = index_of(s, key);
            assert(t[j].key == key);
        }
        if key == entry.key {
            assert(t[s.len() as int].key == key);
        }
        if holds(t, key) {
            let j = index_of(t, key);
            if j < s.len() {
                assert(s[j].key == key);
            }
        }
    }
    assert forall|key: Identity| holds(t, key) implies #[trigger] as_map(t)[key] == as_map(s).insert(
        entry.key,
        entry.value,
    )[key] by {
        let j = index_of(t, key);
        lemma_index_of(t, j);
        if j < s.len() {
            assert(s[j].key == key);
            lemma_index_of(s, j);
        }
    }
    assert(as_map(t) =~= as_map(s).insert(entry.key, entry.value));
}

/// Taking out the entry at one place takes its address out of the map.
pub proof fn lemma_remove_map<V>(s: Seq<Entry<V>>, i: int)
    requires
        distinct(s),
        0 <= i < s.len(),
    ensures
        distinct(s.remove(i)),
        as_map(s.remove(i)) == as_map(s).remove(s[i].key),
{
    let t = s.remove(i);
    assert forall|a: int| 0 <= a < t.len() implies t[a] == s[if a < i { a } else { a + 1 }] by {}
    assert(distinct(t)) by {
        assert forall|a: int, b: int| 0 <= a < b < t.len() implies t[a].key != t[b].key by {
            let a0 = if a < i { a } else { a + 1 };
            let b0 = if b < i { b } else { b + 1 };
            assert(t[a] == s[a0] && t[b] == s[b0]);
        }
    }
    assert forall|key: Identity| holds(t, key) == (holds(s, key) && key != s[i].key) by {
        if holds(s, key) && key != s[i].key {
            let j = index_of(s, key);
            let j0 = if j < i { j } else { j - 1 };
            assert(t[j0].key == key);
        }
        if holds(t, key) {
            let j = index_of(t, key);
            let j0 = if j < i { j } else { j + 1 };
            assert(s[j0].key == key);
            if j0 < i {
                assert(s[j0].key != s[i].key);
            } else {
                assert(s[i].key != s[j0].key);
            }
        }
    }
    assert forall|key: Identity| holds(t, key) implies #[trigger] as_map(t)[key] == as_map(s).remove(
        s[i].key,
    )[key] by {
        let j = index_of(t, key);
        let j0 = if j < i { j } else { j + 1 };
        assert(s[j0].key == key);
        lemma_index_of(t, j);
        lemma_index_of(s, j0);
    }
    assert(as_map(t) =~= as_map(s).remove(s[i].key));
}

/// Replacing the balance at one place changes the balances at that address alone.
pub proof fn lemma_update_balances(s: Seq<Entry<u64>>, i: int, value: u64)
    requires
        distinct(s),
        0 <= i < s.len(),
    ensures
        as_balances(s.update(i, Entry { key: s[i].key, value })) == as_balances(s).insert(
            s[i].key,
            value as nat,
        ),
        as_balances(s)[s[i].key] == s[i].value,
{
    let t = s.update(i, Entry { key: s[i].key, value });
    lemma_update_map(s, i, value);
    lemma_index_of(s, i);
    assert forall|key: Identity| #[trigger] as_balances(t)[key] == as_balances(s).insert(
        s[i].key,
        value as nat,
    )[key] by {
        if holds(s, key) {
            assert(as_map(s).dom().contains(key));
            assert(as_map(t).dom().contains(key));
            assert(as_map(t)[key] == as_map(s).insert(s[i].key, value)[key]);
        } else {
            assert(!as_map(s).dom().contains(key));
            assert(!as_map(t).dom().contains(key));
        }
    }
    assert(as_balances(t) =~= as_balances(s).insert(s[i].key, value as nat));
}

/// Adding a balance under a new address changes the balances at that address alone.
pub proof fn lemma_push_balances(s: Seq<Entry<u64>>, entry: Entry<u64>)
    requires
        distinct(s),
        !holds(s, entry.key),
    ensures
        as_balances(s.push(entry)) == as_balances(s).insert(entry.key, entry.value as nat),
        as_balances(s)[entry.key] == 0,
{
    let t = s.push(entry);
    lemma_push_map(s, entry);
    assert forall|key: Identity| #[trigger] as_balances(t)[key] == as_balances(s).insert(
        entry.key,
        entry.value as nat,
    )[key] by {
        if holds(t, key) {
            assert(as_map(t).dom().contains(key));
            assert(as_map(t)[key] == as_map(s).insert(entry.key, entry.value)[key]);
            if key != entry.key {
                assert(as_map(s).dom().contains(key));
            }
        } else {
            assert(!as_map(t).dom().contains(key));
            assert(!as_map(s).dom().contains(key));
        }
    }
    assert(as_balances(t) =~= as_balances(s).insert(entry.key, entry.value as nat));
}

/// Adding an entry adds its balance to the sum.
pub proof fn lemma_push_sum(s: Seq<Entry<u64>>, entry: Entry<u64>)
    ensures
        sum(s.push(entry)) == sum(s) + entry.value,
{
    assert(s.push(entry).drop_last() =~= s);
}

/// Replacing one balance changes the sum by the difference.
pub proof fn lemma_update_sum(s: Seq<Entry<u64>>, i: int, entry: Entry<u64>)
    requires
        0 <= i < s.len(),
    ensures
        sum(s.update(i, entry)) + s[i].value == sum(s) + entry.value,
    decreases s.len(),
{
    let t = s.update(i, entry);
    if i == s.len() - 1 {
        assert(t.drop_last() =~= s.drop_last());
    } else {
        lemma_update_sum(s.drop_last(), i, entry);
        assert(t.drop_last() =~= s.drop_last().update(i, entry));
    }
}

/// One balance is at most the sum.
pub proof fn lemma_one_within_sum(s: Seq<Entry<u64>>, i: int)
    requires
        0 <= i < s.len(),
    ensures
        s[i].value <= sum(s),
{
    lemma_update_sum(s, i, Entry { key: s[i].key, value: 0u64 });
}

/// Finds the place of the entry stored under the address.
pub fn find<V>(entries: &Vec<Entry<V>>, key: &Identity) -> (place: Option<usize>)
    ensures
        match place {
            Some(i) => i < entries.len() && entries[i as int].key == *key,
            None => !holds(entries@, *key),
        },
{
    let mut i: usize = 0;
    while i < entries.len()
        invariant
            i <= entries.len(),
            forall|j: int| 0 <= j < i ==> entries[j].key != *key,
        decreases entries.len() - i,
    {
        if entries[i].key == *key {
            return Some(i);
        }
        i += 1;
    }
    None
}

} // verus!
