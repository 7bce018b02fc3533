//! Keyed tables held as a sequence of distinct keys beside a sequence of values.
use vstd::prelude::*;

verus! {

/// No key occurs twice.
pub open spec fn unique_keys(keys: Seq<Seq<u8>>) -> bool {
    forall|i: int, j: int|
        0 <= i < keys.len() && 0 <= j < keys.len() && i != j ==> #[trigger] keys[i] != #[trigger] keys[j]
}

pub open spec fn has_key(keys: Seq<Seq<u8>>, a: Seq<u8>) -> bool {
    exists|i: int| 0 <= i < keys.len() && #[trigger] keys[i] == a
}

/// The map from each key to the value at the same position.
pub open spec fn table_view<V>(keys: Seq<Seq<u8>>, vals: Seq<V>) -> Map<Seq<u8>, V> {
    Map::new(
        |a: Seq<u8>| has_key(keys, a),
        |a: Seq<u8>| vals[choose|i: int| 0 <= i < keys.len() && #[trigger] keys[i] == a],
    )
}

pub proof fn lemma_table_index<V>(keys: Seq<Seq<u8>>, vals: Seq<V>, i: int)
    requires
        unique_keys(keys),
        0 <= i < keys.len(),
    ensures
        table_view(keys, vals).contains_key(keys[i]),
        table_view(keys, vals)[keys[i]] == vals[i],
{
    assert(has_key(keys, keys[i]));
    let j = choose|j: int| 0 <= j < keys.len() && #[trigger] keys[j] == keys[i];
    assert(j == i);
}

pub proof fn lemma_table_absent<V>(keys: Seq<Seq<u8>>, vals: Seq<V>, a: Seq<u8>)
    requires
        forall|i: int| 0 <= i < keys.len() ==> #[trigger] keys[i] != a,
    ensures
        !table_view(keys, vals).contains_key(a),
{
}

pub proof fn lemma_table_empty<V>(keys: Seq<Seq<u8>>, vals: Seq<V>)
    requires
        keys.len() == 0,
    ensures
        table_view(keys, vals) == Map::<Seq<u8>, V>::empty(),
        unique_keys(keys),
{
    assert(table_view(keys, vals) =~= Map::<Seq<u8>, V>::empty());
}

pub proof fn lemma_table_push<V>(keys: Seq<Seq<u8>>, vals: Seq<V>, a: Seq<u8>, v: V)
    requires
        unique_keys(keys),
        keys.len() == vals.len(),
        !has_key(keys, a),
    ensures
        unique_keys(keys.push(a)),
        table_view(keys.push(a), vals.push(v)) == table_view(keys, vals).insert(a, v),
{
    let k2 = keys.push(a);
    let v2 = vals.push(v);
    assert forall|i: int, j: int|
        0 <= i < k2.len() && 0 <= j < k2.len() && i != j implies #[trigger] k2[i] != #[trigger] k2[j] by {
        if i == keys.len() {
            assert(k2[j] == keys[j]);
        } else if j == keys.len() {
            assert(k2[i] == keys[i]);
        } else {
            assert(k2[i] == keys[i] && k2[j] == keys[j]);
        }
    }
    let m = table_view(keys, vals).insert(a, v);
    assert forall|b: Seq<u8>| #[trigger] has_key(k2, b) == m.contains_key(b) by {
        if has_key(k2, b) {
            let i = choose|i: int| 0 <= i < k2.len() && #[trigger] k2[i] == b;
            if i < keys.len() {
                assert(keys[i] == b);
            }
        }
        if has_key(keys, b) {
            let i = choose|i: int| 0 <= i < keys.len() && #[trigger] keys[i] == b;
            assert(k2[i] == b);
        }
        if b == a {
            assert(k2[keys.len() as int] == b);
        }
    }
    assert forall|b: Seq<u8>| has_key(k2, b) implies #[trigger] table_view(k2, v2)[b] == m[b] by {
        let i = keys.len() as int;
        if b == a {
            lemma_table_index(k2, v2, i);
        } else {
            let j = choose|j: int| 0 <= j < k2.len() && #[trigger] k2[j] == b;
            assert(j != i);
            assert(keys[j] == b);
            lemma_table_index(k2, v2, j);
            lemma_table_index(keys, vals, j);
        }
    }
    assert(table_view(k2, v2) =~= m);
}

pub proof fn lemma_table_update<V>(keys: Seq<Seq<u8>>, vals: Seq<V>, i: int, v: V)
    requires
        unique_keys(keys),
        keys.len() == vals.len(),
        0 <= i < keys.len(),
    ensures
        table_view(keys, vals.update(i, v)) == table_view(keys, vals).insert(keys[i], v),
{
    let v2 = vals.update(i, v);
    let m = table_view(keys, vals).insert(keys[i], v);
    assert forall|b: Seq<u8>| #[trigger] has_key(keys, b) == m.contains_key(b) by {
        if b == keys[i] {
            assert(has_key(keys, b));
        }
    }
    assert forall|b: Seq<u8>| has_key(keys, b) implies #[trigger] table_view(keys, v2)[b] == m[b] by {
        let j = choose|j: int| 0 <= j < keys.len() && #[trigger] keys[j] == b;
        lemma_table_index(keys, v2, j);
        lemma_table_index(keys, vals, j);
    }
    assert(table_view(keys, v2) =~= m);
}

/// Finds the position of key `a`.
pub fn find_key(keys: &Vec<Vec<u8>>, a: &[u8]) -> (r: Option<usize>)
    ensures
        match r {
            Some(i) => i < keys@.len() && keys@[i as int]@ == a@,
            None => forall|i: int| 0 <= i < keys@.len() ==> #[trigger] keys@[i]@ != a@,
        },
{
    let mut i: usize = 0;
    while i < keys.len()
        invariant
            i <= keys@.len(),
            forall|j: int| 0 <= j < i ==> #[trigger] keys@[j]@ != a@,
        decreases keys@.len() - i,
    {
        if crate::codec::bytes_eq(keys[i].as_slice(), a) {
            return Some(i);
        }
        i += 1;
    }
    None
}

} // verus!
