//! Rows kept in a sequence, read as a map from each row's key to its value.
//! The lemmas say what pushing, removing and replacing a row does to that map
//! when no two rows share a key.

use vstd::prelude::*;

verus! {

/// Row `i` of `rows` exists and has key `k`.
pub open spec fn keyed_at<R, K>(rows: Seq<R>, key: spec_fn(R) -> K, k: K, i: int) -> bool {
    0 <= i < rows.len() && key(rows[i]) == k
}

/// Some row of `rows` has key `k`.
pub open spec fn has_key<R, K>(rows: Seq<R>, key: spec_fn(R) -> K, k: K) -> bool {
    exists|i: int| keyed_at(rows, key, k, i)
}

/// No two rows share a key.
pub open spec fn distinct<R, K>(rows: Seq<R>, key: spec_fn(R) -> K) -> bool {
    forall|i: int, j: int|
        0 <= i < rows.len() && 0 <= j < rows.len() && #[trigger] key(rows[i]) == #[trigger] key(
            rows[j],
        ) ==> i == j
}

/// The map from the key of each row to its value.
pub open spec fn table<R, K, V>(rows: Seq<R>, key: spec_fn(R) -> K, val: spec_fn(R) -> V) -> Map<
    K,
    V,
> {
    Map::new(
        |k: K| has_key(rows, key, k),
        |k: K| val(rows[choose|i: int| keyed_at(rows, key, k, i)]),
    )
}

/// A row is found under its own key.
pub proof fn lemma_row<R, K, V>(rows: Seq<R>, key: spec_fn(R) -> K, val: spec_fn(R) -> V, i: int)
    requires
        distinct(rows, key),
        0 <= i < rows.len(),
    ensures
        table(rows, key, val).contains_key(key(rows[i])),
        table(rows, key, val)[key(rows[i])] == val(rows[i]),
{
    let k = key(rows[i]);
    assert(keyed_at(rows, key, k, i));
    let j = choose|j: int| keyed_at(rows, key, k, j);
    assert(keyed_at(rows, key, k, j));
    assert(key(rows[i]) == key(rows[j]));
}

/// A key that no row has is not in the map.
pub proof fn lemma_absent<R, K, V>(rows: Seq<R>, key: spec_fn(R) -> K, val: spec_fn(R) -> V, k: K)
    requires
        forall|i: int| 0 <= i < rows.len() ==> #[trigger] key(rows[i]) != k,
    ensures
        !table(rows, key, val).contains_key(k),
{
    if has_key(rows, key, k) {
        let i = choose|i: int| keyed_at(rows, key, k, i);
        assert(keyed_at(rows, key, k, i));
        assert(key(rows[i]) != k);
    }
}

/// A key of the map belongs to some row, whose value the map gives.
pub proof fn lemma_present<R, K, V>(
    rows: Seq<R>,
    key: spec_fn(R) -> K,
    val: spec_fn(R) -> V,
    k: K,
) -> (i: int)
    requires
        table(rows, key, val).contains_key(k),
    ensures
        keyed_at(rows, key, k, i),
        table(rows, key, val)[k] == val(rows[i]),
{
    assert(has_key(rows, key, k));
    choose|i: int| keyed_at(rows, key, k, i)
}

/// Pushing a row with a new key inserts it.
pub proof fn lemma_push<R, K, V>(rows: Seq<R>, key: spec_fn(R) -> K, val: spec_fn(R) -> V, row: R)
    requires
        distinct(rows, key),
        !table(rows, key, val).contains_key(key(row)),
    ensures
        distinct(rows.push(row), key),
        table(rows.push(row), key, val) == table(rows, key, val).insert(key(row), val(row)),
{
    let after = rows.push(row);
    assert forall|i: int, j: int|
        0 <= i < after.len() && 0 <= j < after.len() && #[trigger] key(after[i]) == #[trigger] key(
            after[j],
        ) implies i == j by {
        if i < rows.len() && j == rows.len() {
            assert(keyed_at(rows, key, key(row), i));
            assert(has_key(rows, key, key(row)));
        }
        if j < rows.len() && i == rows.len() {
            assert(keyed_at(rows, key, key(row), j));
            assert(has_key(rows, key, key(row)));
        }
    }
    let left = table(after, key, val);
    let right = table(rows, key, val).insert(key(row), val(row));
    assert forall|k: K| left.contains_key(k) <==> right.contains_key(k) by {
        if left.contains_key(k) {
            let i = lemma_present(after, key, val, k);
            if i < rows.len() {
                assert(keyed_at(rows, key, k, i));
            }
        }
        if right.contains_key(k) {
            if k == key(row) {
                assert(keyed_at(after, key, k, rows.len() as int));
            } else {
                let i = lemma_present(rows, key, val, k);
                assert(keyed_at(after, key, k, i));
            }
        }
    }
    assert forall|k: K| left.contains_key(k) implies left[k] == right[k] by {
        let i = lemma_present(after, key, val, k);
        lemma_row(after, key, val, i);
        if i < rows.len() {
            lemma_row(rows, key, val, i);
            assert(key(rows[i]) == k);
            assert(has_key(rows, key, k));
        }
    }
    assert(left =~= right);
}

/// Removing a row removes its key.
pub proof fn lemma_remove<R, K, V>(rows: Seq<R>, key: spec_fn(R) -> K, val: spec_fn(R) -> V, at: int)
    requires
        distinct(rows, key),
        0 <= at < rows.len(),
    ensures
        distinct(rows.remove(at), key),
        table(rows.remove(at), key, val) == table(rows, key, val).remove(key(rows[at])),
{
    let after = rows.remove(at);
    assert forall|i: int| 0 <= i < after.len() implies after[i] == rows[if i < at {
        i
    } else {
        i + 1
    }] by {}
    assert forall|i: int, j: int|
        0 <= i < after.len() && 0 <= j < after.len() && #[trigger] key(after[i]) == #[trigger] key(
            after[j],
        ) implies i == j by {
        let si = if i < at { i } else { i + 1 };
        let sj = if j < at { j } else { j + 1 };
        assert(key(rows[si]) == key(rows[sj]));
    }
    let left = table(after, key, val);
    let right = table(rows, key, val).remove(key(rows[at]));
    assert forall|k: K| left.contains_key(k) <==> right.contains_key(k) by {
        if left.contains_key(k) {
            let i = lemma_present(after, key, val, k);
            let si = if i < at { i } else { i + 1 };
            assert(keyed_at(rows, key, k, si));
            assert(key(rows[si]) == key(rows[at]) ==> si == at);
        }
        if right.contains_key(k) {
            let i = lemma_present(rows, key, val, k);
            let ti = if i < at { i } else { i - 1 };
            assert(keyed_at(after, key, k, ti));
        }
    }
    assert forall|k: K| left.contains_key(k) implies left[k] == right[k] by {
        let i = lemma_present(after, key, val, k);
        let si = if i < at { i } else { i + 1 };
        lemma_row(rows, key, val, si);
    }
    assert(left =~= right);
}

/// Replacing a row by one with the same key replaces its value.
pub proof fn lemma_update<R, K, V>(
    rows: Seq<R>,
    key: spec_fn(R) -> K,
    val: spec_fn(R) -> V,
    at: int,
    row: R,
)
    requires
        distinct(rows, key),
        0 <= at < rows.len(),
        key(row) == key(rows[at]),
    ensures
        distinct(rows.update(at, row), key),
        table(rows.update(at, row), key, val) == table(rows, key, val).insert(key(row), val(row)),
{
    let after = rows.update(at, row);
    assert forall|i: int, j: int|
        0 <= i < after.len() && 0 <= j < after.len() && #[trigger] key(after[i]) == #[trigger] key(
            after[j],
        ) implies i == j by {
        assert(key(after[i]) == key(rows[i]));
        assert(key(after[j]) == key(rows[j]));
    }
    let left = table(after, key, val);
    let right = table(rows, key, val).insert(key(row), val(row));
    assert forall|k: K| left.contains_key(k) <==> right.contains_key(k) by {
        if left.contains_key(k) {
            let i = lemma_present(after, key, val, k);
            assert(key(after[i]) == key(rows[i]));
            assert(keyed_at(rows, key, k, i));
        }
        if right.contains_key(k) {
            if k == key(row) {
                assert(keyed_at(after, key, k, at));
            } else {
                let i = lemma_present(rows, key, val, k);
                assert(keyed_at(after, key, k, i));
            }
        }
    }
    assert forall|k: K| left.contains_key(k) implies left[k] == right[k] by {
        let i = lemma_present(after, key, val, k);
        lemma_row(after, key, val, i);
        if i != at {
            lemma_row(rows, key, val, i);
        }
    }
    assert(left =~= right);
}

} // verus!
