//! Laws of the generated builder's lifecycle, stated over the abstract slot
//! sequence that the builder contracts use.  A run of setter invocations is
//! a sequence of pairs: the position of the targeted field and the value
//! stored there.

use vstd::prelude::*;

verus! {

/// The slot sequence of a builder in its initial state: every field absent.
pub open spec fn all_absent<V>(n: nat) -> Seq<Option<V>> {
    Seq::new(n, |i: int| Option::<V>::None)
}

/// The effect of one setter invocation on the slots: the targeted slot now
/// holds the value as present, every other slot is untouched.
pub open spec fn apply_set<V>(s: Seq<Option<V>>, i: int, v: V) -> Seq<Option<V>> {
    s.update(i, Some(v))
}

/// The effect of a run of setter invocations, applied left to right.
pub open spec fn apply_sets<V>(s: Seq<Option<V>>, ops: Seq<(int, V)>) -> Seq<Option<V>>
    decreases ops.len(),
{
    if ops.len() == 0 {
        s
    } else {
        apply_sets(apply_set(s, ops[0].0, ops[0].1), ops.drop_first())
    }
}

/// Whether some invocation of the run targets the field at position `i`.
pub open spec fn sets_field<V>(ops: Seq<(int, V)>, i: int) -> bool {
    exists|k: int| 0 <= k < ops.len() && (#[trigger] ops[k]).0 == i
}

/// Setter invocations never add or remove fields: the slot count is kept.
pub proof fn lemma_apply_sets_len<V>(s: Seq<Option<V>>, ops: Seq<(int, V)>)
    requires
        forall|k: int| 0 <= k < ops.len() ==> 0 <= (#[trigger] ops[k]).0 < s.len(),
    ensures
        apply_sets(s, ops).len() == s.len(),
    decreases ops.len(),
{
    if ops.len() > 0 {
        let s1 = apply_set(s, ops[0].0, ops[0].1);
        assert forall|k: int| 0 <= k < ops.drop_first().len() implies 0 <= (#[trigger] ops.drop_first()[k]).0 < s1.len() by {
            assert(ops.drop_first()[k] == ops[k + 1]);
        }
        lemma_apply_sets_len(s1, ops.drop_first());
    }
}

/// A field holds its intended value after a run in which every invocation
/// stores the value intended for its own field, provided the field either
/// already held its intended value or is targeted at least once.
pub proof fn lemma_apply_sets_pointwise<V>(s: Seq<Option<V>>, ops: Seq<(int, V)>, v: Seq<V>, i: int)
    requires
        s.len() == v.len(),
        0 <= i < s.len(),
        forall|k: int|
            0 <= k < ops.len() ==> 0 <= (#[trigger] ops[k]).0 < s.len() && ops[k].1 == v[ops[k].0],
        s[i] == Some(v[i]) || sets_field(ops, i),
    ensures
        apply_sets(s, ops)[i] == Some(v[i]),
    decreases ops.len(),
{
    if ops.len() == 0 {
        assert(s[i] == Some(v[i]));
    } else {
        let s1 = apply_set(s, ops[0].0, ops[0].1);
        let rest = ops.drop_first();
        assert forall|k: int| 0 <= k < rest.len() implies 0 <= (#[trigger] rest[k]).0 < s1.len()
            && rest[k].1 == v[rest[k].0] by {
            assert(rest[k] == ops[k + 1]);
        }
        if ops[0].0 == i {
            assert(s1[i] == Some(v[i]));
        } else if s[i] == Some(v[i]) {
            assert(s1[i] == Some(v[i]));
        } else {
            let k = choose|k: int| 0 <= k < ops.len() && (#[trigger] ops[k]).0 == i;
            assert(k != 0);
            assert(rest[k - 1] == ops[k]);
            assert(sets_field(rest, i));
        }
        lemma_apply_sets_pointwise(s1, rest, v, i);
    }
}

/// Round trip: starting from the empty builder, a run that invokes each
/// field's setter at least once, always with that field's intended value,
/// leaves every field holding exactly its intended value — whatever the
/// order of the invocations.  The builder is then complete, and by the
/// finalize contract finalizing it yields precisely the intended values.
pub proof fn lemma_round_trip<V>(n: nat, v: Seq<V>, ops: Seq<(int, V)>)
    requires
        v.len() == n,
        forall|k: int|
            0 <= k < ops.len() ==> 0 <= (#[trigger] ops[k]).0 < n && ops[k].1 == v[ops[k].0],
        forall|i: int| 0 <= i < n ==> #[trigger] sets_field(ops, i),
    ensures
        apply_sets(all_absent::<V>(n), ops).len() == n,
        forall|i: int|
            0 <= i < n ==> (#[trigger] apply_sets(all_absent::<V>(n), ops)[i]) == Some(v[i]),
{
    let s0 = all_absent::<V>(n);
    lemma_apply_sets_len(s0, ops);
    assert forall|i: int| 0 <= i < n implies (#[trigger] apply_sets(s0, ops)[i]) == Some(v[i]) by {
        lemma_apply_sets_pointwise(s0, ops, v, i);
    }
}

/// No operation removes a field's presence: a field present before a setter
/// invocation is still present after it, whichever field the setter targets.
pub proof fn lemma_presence_monotone<V>(s: Seq<Option<V>>, i: int, v: V, j: int)
    requires
        0 <= i < s.len(),
        0 <= j < s.len(),
        s[j] is Some,
    ensures
        apply_set(s, i, v)[j] is Some,
{
}

/// Chaining order is free: setters of two distinct fields commute, so every
/// ordering of a chain of setter calls on distinct fields reaches the same
/// builder state.
pub proof fn lemma_set_commutes<V>(s: Seq<Option<V>>, i: int, j: int, vi: V, vj: V)
    requires
        0 <= i < s.len(),
        0 <= j < s.len(),
        i != j,
    ensures
        apply_set(apply_set(s, i, vi), j, vj) =~= apply_set(apply_set(s, j, vj), i, vi),
{
}

/// Last write wins: invoking the same field's setter twice leaves only the
/// second value visible; the first is discarded entirely.
pub proof fn lemma_overwrite_last_wins<V>(s: Seq<Option<V>>, i: int, v1: V, v2: V)
    requires
        0 <= i < s.len(),
    ensures
        apply_set(apply_set(s, i, v1), i, v2) =~= apply_set(s, i, v2),
{
}

} // verus!
