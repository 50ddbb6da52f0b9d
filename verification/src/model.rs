//! The mathematical model of interleaving: what sequence comes out of two
//! input sequences, and how long it is.

use vstd::prelude::*;

verus! {

/// The full interleaving of `a` and `b`, starting with `a`: the two sides
/// take turns while both have items, and once one side runs out the rest
/// of the other follows contiguously.
pub open spec fn weave<T>(a: Seq<T>, b: Seq<T>) -> Seq<T>
    decreases a.len() + b.len(),
{
    if a.len() == 0 {
        b
    } else {
        seq![a[0]] + weave(b, a.drop_first())
    }
}

/// The strict interleaving of `a` and `b`, starting with `a`: the two
/// sides take turns, and the sequence stops at the first turn whose side
/// has no item, discarding the rest of the other side.
pub open spec fn weave_strict<T>(a: Seq<T>, b: Seq<T>) -> Seq<T>
    decreases a.len() + b.len(),
{
    if a.len() == 0 {
        Seq::empty()
    } else {
        seq![a[0]] + weave_strict(b, a.drop_first())
    }
}

/// Weaving in an empty side hands the other side back unchanged.
pub proof fn lemma_weave_empty<T>(a: Seq<T>)
    ensures
        weave(a, Seq::<T>::empty()) == a,
        weave(Seq::<T>::empty(), a) == a,
    decreases a.len(),
{
    if a.len() == 0 {
        assert(weave(a, Seq::<T>::empty()) =~= a);
    } else {
        lemma_weave_empty(a.drop_first());
        assert(weave(a, Seq::<T>::empty()) =~= a);
    }
}

/// The full interleaving contains every item of both sides: its length is
/// the sum of the two sides' lengths.
pub proof fn lemma_weave_len<T>(a: Seq<T>, b: Seq<T>)
    ensures
        weave(a, b).len() == a.len() + b.len(),
    decreases a.len() + b.len(),
{
    if a.len() > 0 {
        lemma_weave_len(b, a.drop_first());
    }
}

/// The strict interleaving takes both sides up to the shorter length `m`,
/// so it holds `2 * m` items, plus one more when the side due first is
/// the longer one.
pub proof fn lemma_weave_strict_len<T>(a: Seq<T>, b: Seq<T>)
    ensures
        weave_strict(a, b).len() == if a.len() <= b.len() {
            2 * a.len()
        } else {
            2 * b.len() + 1
        },
    decreases a.len() + b.len(),
{
    if a.len() > 0 {
        lemma_weave_strict_len(b, a.drop_first());
    }
}

/// Item-by-item shape of the full interleaving when `a` is no longer than
/// `b`: the first `2 * |a|` positions alternate between the two sides, and
/// from position `2 * |a|` on the items are the remainder of `b`.
pub proof fn lemma_weave_pattern<T>(a: Seq<T>, b: Seq<T>)
    requires
        a.len() <= b.len(),
    ensures
        weave(a, b).len() == a.len() + b.len(),
        forall|k: int|
            0 <= k < 2 * a.len() ==> #[trigger] weave(a, b)[k] == (if k % 2 == 0 {
                a[k / 2]
            } else {
                b[k / 2]
            }),
        forall|k: int|
            2 * a.len() <= k < a.len() + b.len() ==> #[trigger] weave(a, b)[k] == b[k - a.len()],
    decreases a.len(),
{
    lemma_weave_len(a, b);
    if a.len() == 0 {
    } else {
        let a1 = a.drop_first();
        let b1 = b.drop_first();
        lemma_weave_pattern(a1, b1);
        lemma_weave_len(a1, b1);
        assert(weave(a, b) == seq![a[0]] + weave(b, a1));
        assert(weave(b, a1) == seq![b[0]] + weave(a1, b1));
        assert(weave(a, b) =~= seq![a[0], b[0]] + weave(a1, b1));
        assert forall|k: int| 0 <= k < 2 * a.len() implies #[trigger] weave(a, b)[k] == (if k % 2
            == 0 {
            a[k / 2]
        } else {
            b[k / 2]
        }) by {
            if k >= 2 {
                assert(weave(a, b)[k] == weave(a1, b1)[k - 2]);
                assert((k - 2) % 2 == k % 2) by (nonlinear_arith);
                assert((k - 2) / 2 == k / 2 - 1) by (nonlinear_arith);
            }
        }
        assert forall|k: int| 2 * a.len() <= k < a.len() + b.len() implies #[trigger] weave(a, b)[k]
            == b[k - a.len()] by {
            assert(weave(a, b)[k] == weave(a1, b1)[k - 2]);
        }
    }
}

/// When the two sides have the same length, the strict interleaving keeps
/// everything: it coincides with the full interleaving.
pub proof fn lemma_weave_strict_equal_lengths<T>(a: Seq<T>, b: Seq<T>)
    requires
        a.len() == b.len(),
    ensures
        weave_strict(a, b) == weave(a, b),
    decreases a.len(),
{
    if a.len() == 0 {
        assert(weave_strict(a, b) =~= weave(a, b));
    } else {
        let a1 = a.drop_first();
        let b1 = b.drop_first();
        lemma_weave_strict_equal_lengths(a1, b1);
        assert(weave_strict(a, b) == seq![a[0]] + weave_strict(b, a1));
        assert(weave_strict(b, a1) == seq![b[0]] + weave_strict(a1, b1));
        assert(weave(a, b) == seq![a[0]] + weave(b, a1));
        assert(weave(b, a1) == seq![b[0]] + weave(a1, b1));
        assert(weave_strict(a, b) =~= weave(a, b));
    }
}

/// Which side of a strict interleaving comes first matters as soon as the
/// lengths differ: with the shorter side first the output stops one item
/// earlier than with the longer side first.
pub proof fn lemma_weave_strict_order_matters<T>(a: Seq<T>, b: Seq<T>)
    requires
        a.len() < b.len(),
    ensures
        weave_strict(a, b).len() == 2 * a.len(),
        weave_strict(b, a).len() == 2 * a.len() + 1,
{
    lemma_weave_strict_len(a, b);
    lemma_weave_strict_len(b, a);
}

/// A strict interleaving with an empty side yields at most one item: the
/// first item of the side due first, if it has one.
pub proof fn lemma_weave_strict_one_empty<T>(a: Seq<T>)
    requires
        a.len() > 0,
    ensures
        weave_strict(a, Seq::<T>::empty()) == seq![a[0]],
        weave_strict(Seq::<T>::empty(), a) == Seq::<T>::empty(),
{
    let e = Seq::<T>::empty();
    assert(weave_strict(a, e) == seq![a[0]] + weave_strict(e, a.drop_first()));
    assert(weave_strict(e, a.drop_first()) == e);
    assert(weave_strict(a, e) =~= seq![a[0]]);
}

} // verus!
