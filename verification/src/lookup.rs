//! Association sequences: lookup by key in a sequence of key/value pairs,
//! and how the lookup behaves under appending, updating and removal.  The
//! stores hold their entries this way, keyed by identifier views.
use vstd::prelude::*;

verus! {

/// The first value in the association sequence whose key equals `k`.
pub open spec fn seq_find<K, V>(s: Seq<(K, V)>, k: K) -> Option<V>
    decreases s.len(),
{
    if s.len() == 0 {
        None
    } else if s[0].0 == k {
        Some(s[0].1)
    } else {
        seq_find(s.drop_first(), k)
    }
}

/// No two pairs share a key.
pub open spec fn unique_keys<K, V>(s: Seq<(K, V)>) -> bool {
    forall|i: int, j: int| 0 <= i < j < s.len() ==> (#[trigger] s[i].0) != (#[trigger] s[j].0)
}

/// A key that occurs nowhere is not found.
pub proof fn lemma_seq_find_absent<K, V>(s: Seq<(K, V)>, q: K)
    requires
        forall|j: int| 0 <= j < s.len() ==> (#[trigger] s[j].0) != q,
    ensures
        seq_find(s, q) is None,
    decreases s.len(),
{
    if s.len() > 0 {
        assert(s.drop_first() =~= s.subrange(1, s.len() as int));
        lemma_seq_find_absent(s.drop_first(), q);
    }
}

/// A key that is not found occurs nowhere.
pub proof fn lemma_seq_find_none_absent<K, V>(s: Seq<(K, V)>, q: K)
    requires
        seq_find(s, q) is None,
    ensures
        forall|j: int| 0 <= j < s.len() ==> (#[trigger] s[j].0) != q,
    decreases s.len(),
{
    if s.len() > 0 {
        lemma_seq_find_none_absent(s.drop_first(), q);
        assert forall|j: int| 0 <= j < s.len() implies (#[trigger] s[j].0) != q by {
            if j > 0 {
                assert(s.drop_first()[j - 1] == s[j]);
            }
        }
    }
}

/// A found value occurs in the sequence under its key.
pub proof fn lemma_seq_find_some_occurs<K, V>(s: Seq<(K, V)>, q: K)
    requires
        seq_find(s, q) is Some,
    ensures
        exists|j: int| 0 <= j < s.len() && #[trigger] s[j] == (q, seq_find(s, q)->Some_0),
    decreases s.len(),
{
    if s.len() > 0 {
        if s[0].0 == q {
            assert(s[0] == (q, seq_find(s, q)->Some_0));
        } else {
            lemma_seq_find_some_occurs(s.drop_first(), q);
            let j = choose|j: int|
                0 <= j < s.drop_first().len() && #[trigger] s.drop_first()[j] == (
                q,
                seq_find(s.drop_first(), q)->Some_0,
                );
            assert(s[j + 1] == (q, seq_find(s, q)->Some_0));
        }
    }
}

/// Appending a pair leaves every present key as it was, and makes the new
/// key found exactly when it was absent before.
pub proof fn lemma_seq_find_push<K, V>(s: Seq<(K, V)>, k: K, v: V, q: K)
    ensures
        seq_find(s.push((k, v)), q) == (if seq_find(s, q) is Some {
            seq_find(s, q)
        } else if q == k {
            Some(v)
        } else {
            None::<V>
        }),
    decreases s.len(),
{
    reveal_with_fuel(seq_find, 3);
    if s.len() == 0 {
        assert(s.push((k, v))[0] == (k, v));
        assert(s.push((k, v)).drop_first() =~= Seq::<(K, V)>::empty());
    } else {
        assert(s.push((k, v))[0] == s[0]);
        assert(s.push((k, v)).drop_first() =~= s.drop_first().push((k, v)));
        lemma_seq_find_push(s.drop_first(), k, v, q);
    }
}

/// Replacing the value at the first occurrence of a key updates that key's
/// lookup and no other.
pub proof fn lemma_seq_find_update<K, V>(s: Seq<(K, V)>, i: int, v: V, q: K)
    requires
        0 <= i < s.len(),
        forall|j: int| 0 <= j < i ==> (#[trigger] s[j].0) != s[i].0,
    ensures
        seq_find(s.update(i, (s[i].0, v)), q) == (if q == s[i].0 {
            Some(v)
        } else {
            seq_find(s, q)
        }),
    decreases i,
{
    let t = s.update(i, (s[i].0, v));
    if i == 0 {
        assert(t[0] == (s[0].0, v));
        assert(t.drop_first() =~= s.drop_first());
    } else {
        assert(t[0] == s[0]);
        assert(t.drop_first() =~= s.drop_first().update(i - 1, (s[i].0, v)));
        assert(s.drop_first()[i - 1] == s[i]);
        lemma_seq_find_update(s.drop_first(), i - 1, v, q);
    }
}

/// Removing the only occurrence of a key makes it absent and leaves every
/// other key's lookup as it was.
pub proof fn lemma_seq_find_remove<K, V>(s: Seq<(K, V)>, i: int, q: K)
    requires
        0 <= i < s.len(),
        forall|j: int| 0 <= j < s.len() && j != i ==> (#[trigger] s[j].0) != s[i].0,
    ensures
        seq_find(s.remove(i), q) == (if q == s[i].0 {
            None::<V>
        } else {
            seq_find(s, q)
        }),
    decreases s.len(),
{
    let t = s.remove(i);
    if i == 0 {
        assert(t =~= s.drop_first());
        if q == s[0].0 {
            lemma_seq_find_absent(s.drop_first(), q);
        }
    } else {
        assert(t[0] == s[0]);
        assert(t.drop_first() =~= s.drop_first().remove(i - 1));
        assert(s.drop_first()[i - 1] == s[i]);
        lemma_seq_find_remove(s.drop_first(), i - 1, q);
    }
}

/// Mapping a function over a sequence commutes with appending.
pub proof fn lemma_map_values_push<A, B>(s: Seq<A>, a: A, f: spec_fn(A) -> B)
    ensures
        (s.push(a)).map_values(f) =~= s.map_values(f).push(f(a)),
{
    assert forall|j: int| 0 <= j < s.len() + 1 implies (s.push(a)).map_values(f)[j]
        == s.map_values(f).push(f(a))[j] by {
        if j < s.len() {
            assert(s.push(a)[j] == s[j]);
        } else {
            assert(s.push(a)[j] == a);
        }
    }
}

/// Mapping a function over a sequence commutes with updating one position.
pub proof fn lemma_map_values_update<A, B>(s: Seq<A>, i: int, a: A, f: spec_fn(A) -> B)
    requires
        0 <= i < s.len(),
    ensures
        (s.update(i, a)).map_values(f) =~= s.map_values(f).update(i, f(a)),
{
    assert forall|j: int| 0 <= j < s.len() implies (s.update(i, a)).map_values(f)[j]
        == s.map_values(f).update(i, f(a))[j] by {
        if j != i {
            assert(s.update(i, a)[j] == s[j]);
        } else {
            assert(s.update(i, a)[j] == a);
        }
    }
}

/// Mapping a function over a sequence commutes with removing one position.
pub proof fn lemma_map_values_remove<A, B>(s: Seq<A>, i: int, f: spec_fn(A) -> B)
    requires
        0 <= i < s.len(),
    ensures
        (s.remove(i)).map_values(f) =~= s.map_values(f).remove(i),
{
    assert forall|j: int| 0 <= j < s.len() - 1 implies (s.remove(i)).map_values(f)[j]
        == s.map_values(f).remove(i)[j] by {
        if j < i {
            assert(s.remove(i)[j] == s[j]);
        } else {
            assert(s.remove(i)[j] == s[j + 1]);
        }
    }
}

/// A prefix holding no match leaves the lookup to the rest of the sequence.
pub proof fn lemma_seq_find_skip<K, V>(s: Seq<(K, V)>, i: int, q: K)
    requires
        0 <= i <= s.len(),
        forall|j: int| 0 <= j < i ==> (#[trigger] s[j].0) != q,
    ensures
        seq_find(s, q) == seq_find(s.skip(i), q),
    decreases i,
{
    if i > 0 {
        assert(s.len() > 0);
        assert(s.drop_first() =~= s.skip(1));
        assert(s.skip(i) =~= s.drop_first().skip(i - 1));
        lemma_seq_find_skip(s.drop_first(), i - 1, q);
    } else {
        assert(s.skip(0) =~= s);
    }
}

} // verus!
