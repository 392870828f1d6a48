//! Resolution semantics of the generated implementations.
//!
//! A call site asks for "the field of type `T`" and the host's
//! implementation-uniqueness rules pick the single implementation keyed by
//! `T` (and the requested mutability).  [`resolve`] models that step over a
//! generated implementation set: no match, a unique match with its slot, or
//! an ambiguous clash — the fate of an aggregate with two fields of one
//! type, which generation itself never rejects.
//!
//! On top of the same model, the proof functions at the end state what
//! type-keyed access guarantees when the field types are pairwise distinct:
//! every field is read back intact, a write through the mutable accessor is
//! seen by the next read and leaves every other field alone, and two
//! distinct types never resolve to the same slot.

use vstd::prelude::*;

use crate::model::{
    AccessorImpl, DefModel, ImplModel, field_types, impl_views, is_tuple_struct,
    pairwise_distinct, planned_impl, planned_impls, wants_mut,
};

verus! {

/// How many positions of `ts` carry exactly the type `t`.
pub open spec fn type_count(ts: Seq<Seq<char>>, t: Seq<char>) -> nat
    decreases ts.len(),
{
    if ts.len() == 0 {
        0
    } else {
        type_count(ts.drop_last(), t) + (if ts.last() == t {
            1nat
        } else {
            0nat
        })
    }
}

/// The position of the `t`-typed field; meaningful when exactly one
/// position carries `t`.
pub open spec fn slot_of(ts: Seq<Seq<char>>, t: Seq<char>) -> int {
    choose|i: int| 0 <= i < ts.len() && ts[i] == t
}

/// What a call site reads when it fetches the field of type `t` from an
/// instance whose slots hold `slots`: the value in the `t`-typed slot when
/// exactly one implementation is keyed by `t`, and nothing otherwise (no
/// implementation, or an ambiguous clash).
pub open spec fn model_fetch<V>(ts: Seq<Seq<char>>, slots: Seq<V>, t: Seq<char>) -> Option<V> {
    if type_count(ts, t) == 1 {
        Some(slots[slot_of(ts, t)])
    } else {
        None
    }
}

/// The slots after a call site writes `v` through the mutable accessor for
/// type `t`: only the `t`-typed slot changes, and only when exactly one
/// implementation is keyed by `t`.
pub open spec fn model_store<V>(ts: Seq<Seq<char>>, slots: Seq<V>, t: Seq<char>, v: V) -> Seq<V> {
    if type_count(ts, t) == 1 {
        slots.update(slot_of(ts, t), v)
    } else {
        slots
    }
}

/// A type that occurs at some position is counted at least once.
proof fn lemma_count_at_least_one(ts: Seq<Seq<char>>, t: Seq<char>, i: int)
    requires
        0 <= i < ts.len(),
        ts[i] == t,
    ensures
        type_count(ts, t) >= 1,
    decreases ts.len(),
{
    if i == ts.len() - 1 {
    } else {
        lemma_count_at_least_one(ts.drop_last(), t, i);
    }
}

/// A type that occurs at two positions is counted at least twice.
proof fn lemma_count_at_least_two(ts: Seq<Seq<char>>, t: Seq<char>, i: int, j: int)
    requires
        0 <= i < j < ts.len(),
        ts[i] == t,
        ts[j] == t,
    ensures
        type_count(ts, t) >= 2,
    decreases ts.len(),
{
    if j == ts.len() - 1 {
        lemma_count_at_least_one(ts.drop_last(), t, i);
    } else {
        lemma_count_at_least_two(ts.drop_last(), t, i, j);
    }
}

/// A type that occurs at no position is counted zero times.
proof fn lemma_count_zero(ts: Seq<Seq<char>>, t: Seq<char>)
    requires
        forall|i: int| 0 <= i < ts.len() ==> ts[i] != t,
    ensures
        type_count(ts, t) == 0,
    decreases ts.len(),
{
    if ts.len() > 0 {
        lemma_count_zero(ts.drop_last(), t);
    }
}

/// Under pairwise-distinct field types, the type at position `i` is counted
/// exactly once, and its slot is `i`.
pub proof fn lemma_distinct_slot(ts: Seq<Seq<char>>, i: int)
    requires
        pairwise_distinct(ts),
        0 <= i < ts.len(),
    ensures
        type_count(ts, ts[i]) == 1,
        slot_of(ts, ts[i]) == i,
    decreases ts.len(),
{
    lemma_count_at_least_one(ts, ts[i], i);
    lemma_count_at_most_one(ts, ts[i]);
    let k = slot_of(ts, ts[i]);
    assert(0 <= k < ts.len() && ts[k] == ts[i]);
    assert(k == i) by {
        if k < i {
            assert(ts[k] != ts[i]);
        } else if i < k {
            assert(ts[i] != ts[k]);
        }
    }
}

/// Under pairwise-distinct field types, no type is counted twice.
proof fn lemma_count_at_most_one(ts: Seq<Seq<char>>, t: Seq<char>)
    requires
        pairwise_distinct(ts),
    ensures
        type_count(ts, t) <= 1,
{
    if type_count(ts, t) >= 2 {
        lemma_count_two_witnesses(ts, t);
        let p = choose|p: (int, int)| 0 <= p.0 < p.1 < ts.len() && ts[p.0] == t && ts[p.1] == t;
        assert(ts[p.0] != ts[p.1]);
    }
}

/// A count of two or more yields two distinct positions carrying the type.
proof fn lemma_count_two_witnesses(ts: Seq<Seq<char>>, t: Seq<char>)
    requires
        type_count(ts, t) >= 2,
    ensures
        exists|p: (int, int)|
            0 <= p.0 < p.1 < ts.len() && ts[p.0] == t && ts[p.1] == t,
    decreases ts.len(),
{
    if ts.last() == t {
        lemma_count_one_witness(ts.drop_last(), t);
        let a = choose|a: int| 0 <= a < ts.drop_last().len() && ts.drop_last()[a] == t;
        let p = (a, ts.len() - 1);
        assert(0 <= p.0 < p.1 < ts.len() && ts[p.0] == t && ts[p.1] == t);
    } else {
        lemma_count_two_witnesses(ts.drop_last(), t);
        let p = choose|p: (int, int)|
            0 <= p.0 < p.1 < ts.drop_last().len() && ts.drop_last()[p.0] == t && ts.drop_last()[p.1]
                == t;
        assert(0 <= p.0 < p.1 < ts.len() && ts[p.0] == t && ts[p.1] == t);
    }
}

/// A count of one or more yields a position carrying the type.
proof fn lemma_count_one_witness(ts: Seq<Seq<char>>, t: Seq<char>)
    requires
        type_count(ts, t) >= 1,
    ensures
        exists|a: int| 0 <= a < ts.len() && ts[a] == t,
    decreases ts.len(),
{
    if ts.last() == t {
        assert(ts[ts.len() - 1] == t);
    } else {
        lemma_count_one_witness(ts.drop_last(), t);
        let a = choose|a: int| 0 <= a < ts.drop_last().len() && ts.drop_last()[a] == t;
        assert(ts[a] == t);
    }
}

/// Disjoint round-trip: over pairwise-distinct field types, fetching by the
/// type of field `i` reads back exactly the value stored in slot `i` — and
/// only slot `i`: any instance holding the same value there is read the same
/// way, whatever its other slots hold.
pub proof fn lemma_disjoint_round_trip<V>(ts: Seq<Seq<char>>, slots: Seq<V>, i: int)
    requires
        pairwise_distinct(ts),
        slots.len() == ts.len(),
        0 <= i < ts.len(),
    ensures
        model_fetch(ts, slots, ts[i]) == Some(slots[i]),
        forall|other: Seq<V>| other.len() == ts.len() && other[i] == slots[i]
            ==> model_fetch(ts, other, ts[i]) == model_fetch(ts, slots, ts[i]),
{
    lemma_distinct_slot(ts, i);
}

/// Mutation visibility: over pairwise-distinct field types, a write through
/// the mutable accessor for the type of field `i` is observed by the next
/// fetch of that type, and every other field reads back unchanged.
pub proof fn lemma_mutation_visibility<V>(ts: Seq<Seq<char>>, slots: Seq<V>, i: int, v: V)
    requires
        pairwise_distinct(ts),
        slots.len() == ts.len(),
        0 <= i < ts.len(),
    ensures
        model_fetch(ts, model_store(ts, slots, ts[i], v), ts[i]) == Some(v),
        forall|j: int| 0 <= j < ts.len() && j != i ==> model_fetch(
            ts,
            model_store(ts, slots, ts[i], v),
            ts[j],
        ) == Some(slots[j]),
{
    lemma_distinct_slot(ts, i);
    assert forall|j: int| 0 <= j < ts.len() && j != i implies model_fetch(
        ts,
        model_store(ts, slots, ts[i], v),
        ts[j],
    ) == Some(slots[j]) by {
        lemma_distinct_slot(ts, j);
    }
}

/// Type-keyed isolation: over pairwise-distinct field types, two distinct
/// types resolve to two distinct slots, so fetching by the type of field `i`
/// reads slot `i` and never the slot that backs field `j`.
pub proof fn lemma_type_keyed_isolation<V>(ts: Seq<Seq<char>>, slots: Seq<V>, i: int, j: int)
    requires
        pairwise_distinct(ts),
        slots.len() == ts.len(),
        0 <= i < ts.len(),
        0 <= j < ts.len(),
        i != j,
    ensures
        ts[i] != ts[j],
        slot_of(ts, ts[i]) != slot_of(ts, ts[j]),
        model_fetch(ts, slots, ts[i]) == Some(slots[i]),
{
    lemma_distinct_slot(ts, i);
    lemma_distinct_slot(ts, j);
}

/// Whether one implementation answers a request for type `t` with the given
/// mutability.
pub open spec fn impl_matches(m: ImplModel, t: Seq<char>, mutable: bool) -> bool {
    m.target == t && m.mutable == mutable
}

/// How many implementations of the set answer a request for `t` with the
/// given mutability.
pub open spec fn impl_count(impls: Seq<ImplModel>, t: Seq<char>, mutable: bool) -> nat
    decreases impls.len(),
{
    if impls.len() == 0 {
        0
    } else {
        impl_count(impls.drop_last(), t, mutable) + (if impl_matches(impls.last(), t, mutable) {
            1nat
        } else {
            0nat
        })
    }
}

/// The outcome of implementation resolution at one call site.
#[derive(Clone, Copy, Debug, PartialEq, Eq, Structural)]
pub enum Resolution {
    /// No implementation is keyed by the requested type.
    NoMatch,
    /// Exactly one implementation matches; it projects the given slot.
    Unique(usize),
    /// Two or more implementations share the requested key: the ambiguity an
    /// aggregate with duplicate field types runs into at its call sites.
    Ambiguous,
}

/// Implementation resolution: picks the single implementation of `impls`
/// keyed by `target` with the requested mutability, and reports its slot;
/// reports the clash when several share that key, and no match when none
/// carries it.
pub fn resolve(impls: &Vec<AccessorImpl>, target: &String, mutable: bool) -> (r: Resolution)
    ensures
        match r {
            Resolution::NoMatch => impl_count(impl_views(impls@), target@, mutable) == 0,
            Resolution::Unique(p) => impl_count(impl_views(impls@), target@, mutable) == 1
                && exists|k: int|
                    0 <= k < impls@.len() && impl_matches(#[trigger] impl_views(impls@)[k], target@, mutable)
                        && impl_views(impls@)[k].position == p,
            Resolution::Ambiguous => impl_count(impl_views(impls@), target@, mutable) >= 2,
        },
{
    let ghost views = impl_views(impls@);
    let n = impls.len();
    let mut matched: usize = 0;
    let mut pos: usize = 0;
    let mut k: usize = 0;
    while k < n
        invariant
            k <= n,
            n == impls@.len(),
            views == impl_views(impls@),
            views.len() == n,
            matched <= k,
            matched == impl_count(views.take(k as int), target@, mutable),
            matched >= 1 ==> exists|j: int|
                0 <= j < k && impl_matches(#[trigger] views[j], target@, mutable)
                    && views[j].position == pos,
        decreases n - k,
    {
        proof {
            assert(views.take(k as int + 1).drop_last() =~= views.take(k as int));
            assert(views.take(k as int + 1).last() == views[k as int]);
            assert(views[k as int] == impls@[k as int]@);
        }
        if impls[k].mutable == mutable && target.eq(&impls[k].target) {
            if matched == 0 {
                pos = impls[k].position;
            }
            matched = matched + 1;
            proof {
                if matched == 1 {
                    assert(impl_matches(views[k as int], target@, mutable)
                        && views[k as int].position == pos);
                }
            }
        }
        k += 1;
    }
    proof {
        assert(views.take(n as int) =~= views);
    }
    if matched == 0 {
        Resolution::NoMatch
    } else if matched == 1 {
        Resolution::Unique(pos)
    } else {
        Resolution::Ambiguous
    }
}

/// Counting matches distributes over concatenation of implementation sets.
proof fn lemma_impl_count_concat(a: Seq<ImplModel>, b: Seq<ImplModel>, t: Seq<char>, mutable: bool)
    ensures
        impl_count(a + b, t, mutable) == impl_count(a, t, mutable) + impl_count(b, t, mutable),
    decreases b.len(),
{
    if b.len() == 0 {
        assert(a + b =~= a);
    } else {
        lemma_impl_count_concat(a, b.drop_last(), t, mutable);
        assert((a + b).drop_last() =~= a + b.drop_last());
        assert((a + b).last() == b.last());
    }
}

/// Among the accessors planned with one mutability, a type is matched as
/// often as it occurs among the first `n` field types.
proof fn lemma_impl_count_planned(d: DefModel, n: int, planned_mut: bool, t: Seq<char>, mutable: bool)
    requires
        is_tuple_struct(d),
        0 <= n <= field_types(d).len(),
    ensures
        impl_count(Seq::new(n as nat, |i: int| planned_impl(d, i, planned_mut)), t, mutable) == (
        if planned_mut == mutable {
            type_count(field_types(d).take(n), t)
        } else {
            0nat
        }),
    decreases n,
{
    let s = Seq::new(n as nat, |i: int| planned_impl(d, i, planned_mut));
    if n == 0 {
    } else {
        lemma_impl_count_planned(d, n - 1, planned_mut, t, mutable);
        assert(s.drop_last() =~= Seq::new((n - 1) as nat, |i: int| planned_impl(d, i, planned_mut)));
        assert(field_types(d).take(n).drop_last() =~= field_types(d).take(n - 1));
        assert(s.last() == planned_impl(d, n - 1, planned_mut));
        assert(field_types(d).take(n).last() == field_types(d)[n - 1]);
    }
}

/// At a call site, the generated implementation set answers a request for
/// type `t` exactly as often as `t` occurs among the field types — for the
/// mutable accessors only when the mutable marker was present.  In
/// particular a duplicated field type makes every request for it ambiguous,
/// a type occurring once resolves uniquely, and an absent type matches
/// nothing.
pub proof fn lemma_planned_resolution(d: DefModel, t: Seq<char>)
    requires
        is_tuple_struct(d),
    ensures
        impl_count(planned_impls(d), t, false) == type_count(field_types(d), t),
        impl_count(planned_impls(d), t, true) == (if wants_mut(d) {
            type_count(field_types(d), t)
        } else {
            0nat
        }),
{
    let n = field_types(d).len() as int;
    let gets = Seq::new(n as nat, |i: int| planned_impl(d, i, false));
    let muts = Seq::new(n as nat, |i: int| planned_impl(d, i, true));
    assert(field_types(d).take(n) =~= field_types(d));
    lemma_impl_count_planned(d, n, false, t, false);
    lemma_impl_count_planned(d, n, false, t, true);
    if wants_mut(d) {
        lemma_impl_count_concat(gets, muts, t, false);
        lemma_impl_count_concat(gets, muts, t, true);
        lemma_impl_count_planned(d, n, true, t, false);
        lemma_impl_count_planned(d, n, true, t, true);
    }
}

} // verus!
