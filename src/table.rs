use vstd::prelude::*;

verus! {

/// A sequence whose records are keyed by text, each key at most once.
pub open spec fn keys_unique<T>(s: Seq<T>, key: spec_fn(T) -> Seq<char>) -> bool {
    forall|i: int, j: int|
        0 <= i < s.len() && 0 <= j < s.len() && i != j ==> key(#[trigger] s[i]) != key(
            #[trigger] s[j],
        )
}

/// Some record of the sequence has this key.
pub open spec fn has_key<T>(s: Seq<T>, key: spec_fn(T) -> Seq<char>, k: Seq<char>) -> bool {
    exists|i: int| 0 <= i < s.len() && key(#[trigger] s[i]) == k
}

/// The sequence read as a map from key to record.
pub open spec fn table_map<T>(s: Seq<T>, key: spec_fn(T) -> Seq<char>) -> Map<Seq<char>, T> {
    Map::new(
        |k: Seq<char>| has_key(s, key, k),
        |k: Seq<char>| s[choose|i: int| 0 <= i < s.len() && key(#[trigger] s[i]) == k],
    )
}

pub proof fn lemma_table_index<T>(s: Seq<T>, key: spec_fn(T) -> Seq<char>, i: int)
    requires
        keys_unique(s, key),
        0 <= i < s.len(),
    ensures
        table_map(s, key).dom().contains(key(s[i])),
        table_map(s, key)[key(s[i])] == s[i],
{
    let k = key(s[i]);
    assert(has_key(s, key, k));
    let j = choose|j: int| 0 <= j < s.len() && key(#[trigger] s[j]) == k;
    if j != i {
        assert(key(s[j]) != key(s[i]));
    }
}

pub proof fn lemma_table_push<T>(s: Seq<T>, key: spec_fn(T) -> Seq<char>, x: T)
    requires
        keys_unique(s, key),
        !has_key(s, key, key(x)),
    ensures
        keys_unique(s.push(x), key),
        table_map(s.push(x), key) == table_map(s, key).insert(key(x), x),
{
    let t = s.push(x);
    let n = s.len() as int;
    assert forall|i: int, j: int|
        0 <= i < t.len() && 0 <= j < t.len() && i != j implies key(#[trigger] t[i]) != key(
            #[trigger] t[j],
        ) by {
        if i < n {
            assert(t[i] == s[i]);
        }
        if j < n {
            assert(t[j] == s[j]);
        }
    }
    let m = table_map(s, key).insert(key(x), x);
    assert forall|k: Seq<char>| #[trigger] table_map(t, key).dom().contains(k) <==> m.dom().contains(
        k,
    ) by {
        if has_key(t, key, k) && k != key(x) {
            let i = choose|i: int| 0 <= i < t.len() && key(#[trigger] t[i]) == k;
            assert(t[i] == s[i]);
        }
        if has_key(s, key, k) {
            let i = choose|i: int| 0 <= i < s.len() && key(#[trigger] s[i]) == k;
            assert(t[i] == s[i]);
        }
        assert(t[n] == x);
    }
    assert forall|k: Seq<char>| #[trigger] table_map(t, key).dom().contains(k) implies table_map(
        t,
        key,
    )[k] == m[k] by {
        let i = choose|i: int| 0 <= i < t.len() && key(#[trigger] t[i]) == k;
        lemma_table_index(t, key, i);
        if i < n {
            assert(t[i] == s[i]);
            lemma_table_index(s, key, i);
        }
    }
    assert(table_map(t, key) =~= m);
}

pub proof fn lemma_table_update<T>(s: Seq<T>, key: spec_fn(T) -> Seq<char>, i: int, x: T)
    requires
        keys_unique(s, key),
        0 <= i < s.len(),
        key(x) == key(s[i]),
    ensures
        keys_unique(s.update(i, x), key),
        table_map(s.update(i, x), key) == table_map(s, key).insert(key(x), x),
{
    let t = s.update(i, x);
    assert forall|a: int, b: int|
        0 <= a < t.len() && 0 <= b < t.len() && a != b implies key(#[trigger] t[a]) != key(
            #[trigger] t[b],
        ) by {
        assert(key(t[a]) == key(s[a]));
        assert(key(t[b]) == key(s[b]));
    }
    lemma_table_index(s, key, i);
    let m = table_map(s, key).insert(key(x), x);
    assert forall|k: Seq<char>| #[trigger] table_map(t, key).dom().contains(k) <==> m.dom().contains(
        k,
    ) by {
        if has_key(t, key, k) {
            let j = choose|j: int| 0 <= j < t.len() && key(#[trigger] t[j]) == k;
            assert(key(s[j]) == k);
        }
        if has_key(s, key, k) {
            let j = choose|j: int| 0 <= j < s.len() && key(#[trigger] s[j]) == k;
            assert(key(t[j]) == k);
        }
    }
    assert forall|k: Seq<char>| #[trigger] table_map(t, key).dom().contains(k) implies table_map(
        t,
        key,
    )[k] == m[k] by {
        let j = choose|j: int| 0 <= j < t.len() && key(#[trigger] t[j]) == k;
        lemma_table_index(t, key, j);
        if j != i {
            assert(t[j] == s[j]);
            lemma_table_index(s, key, j);
        }
    }
    assert(table_map(t, key) =~= m);
}

pub proof fn lemma_table_remove<T>(s: Seq<T>, key: spec_fn(T) -> Seq<char>, i: int)
    requires
        keys_unique(s, key),
        0 <= i < s.len(),
    ensures
        keys_unique(s.remove(i), key),
        table_map(s.remove(i), key) == table_map(s, key).remove(key(s[i])),
{
    let t = s.remove(i);
    let gone = key(s[i]);
    assert forall|a: int, b: int|
        0 <= a < t.len() && 0 <= b < t.len() && a != b implies key(#[trigger] t[a]) != key(
            #[trigger] t[b],
        ) by {
        let a0 = if a < i { a } else { a + 1 };
        let b0 = if b < i { b } else { b + 1 };
        assert(t[a] == s[a0]);
        assert(t[b] == s[b0]);
    }
    let m = table_map(s, key).remove(gone);
    assert forall|k: Seq<char>| #[trigger] table_map(t, key).dom().contains(k) <==> m.dom().contains(
        k,
    ) by {
        if has_key(t, key, k) {
            let j = choose|j: int| 0 <= j < t.len() && key(#[trigger] t[j]) == k;
            let j0 = if j < i { j } else { j + 1 };
            assert(t[j] == s[j0]);
            assert(key(s[j0]) != key(s[i]));
        }
        if has_key(s, key, k) && k != gone {
            let j = choose|j: int| 0 <= j < s.len() && key(#[trigger] s[j]) == k;
            if j < i {
                assert(t[j] == s[j]);
            } else {
                assert(j != i);
                assert(t[j - 1] == s[j]);
            }
        }
    }
    assert forall|k: Seq<char>| #[trigger] table_map(t, key).dom().contains(k) implies table_map(
        t,
        key,
    )[k] == m[k] by {
        let j = choose|j: int| 0 <= j < t.len() && key(#[trigger] t[j]) == k;
        lemma_table_index(t, key, j);
        let j0 = if j < i { j } else { j + 1 };
        assert(t[j] == s[j0]);
        lemma_table_index(s, key, j0);
    }
    assert(table_map(t, key) =~= m);
}

} // verus!
