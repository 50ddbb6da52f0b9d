//! Strict interleaving: the adapter stops for good at the first
//! exhaustion it observes.

use vstd::prelude::*;

use crate::model::{lemma_weave_strict_len, weave_strict};
use crate::source::{exact_source, Source};
use crate::utils::{
    checked, min_and_1, saturating, spec_checked, spec_min_and_1, spec_saturating,
};

verus! {

/// Alternates between the items of two sources until either is exhausted.
///
/// Each call to [`next`](AlternatingNoRemainder::next) pulls from the side
/// whose turn it is.  The moment that side has nothing, the adapter
/// returns `None` without consulting the other side, and from then on
/// every call returns `None`: exhaustion is sticky, and the remainder of
/// the other side is discarded.
#[derive(Debug, Clone, Copy, PartialEq, Eq)]
pub struct AlternatingNoRemainder<I, J> where I: Source, J: Source<Item = I::Item> {
    /// The left source, due first after construction.
    pub i: I,
    /// The right source.
    pub j: J,
    /// The cursor: whether the left source produced the most recent item
    /// (so the right source is due next).
    pub last_i: bool,
}

impl<I, J> AlternatingNoRemainder<I, J> where I: Source, J: Source<Item = I::Item> {
    /// Everything this adapter will ever yield: the strict interleaving
    /// of the two sides, the due side first.
    pub open spec fn remaining_items(&self) -> Seq<I::Item> {
        if !self.last_i {
            weave_strict(self.i.pending(), self.j.pending())
        } else {
            weave_strict(self.j.pending(), self.i.pending())
        }
    }

    /// The `(min, max)` estimate this adapter reports: the same
    /// shorter-side doubling as for [`Alternating`], since the two
    /// adapters behave identically up to the first exhaustion signal.
    ///
    /// [`Alternating`]: crate::Alternating
    pub open spec fn spec_size_hint(&self) -> (usize, Option<usize>) {
        let lo = spec_saturating(
            spec_min_and_1(self.i.reported_min(), self.j.reported_min(), self.last_i),
        );
        let hi = match (self.i.reported_max(), self.j.reported_max()) {
            (Some(iu), Some(ju)) => spec_checked(spec_min_and_1(iu, ju, self.last_i)),
            (Some(iu), None) => spec_checked((iu, self.last_i)),
            (None, Some(ju)) => spec_checked((ju, !self.last_i)),
            (None, None) => None,
        };
        (lo, hi)
    }

    /// Combine two sources into a strictly alternating adapter; `i` is
    /// due first.
    pub fn new(i: I, j: J) -> (r: Self)
        ensures
            r.i == i,
            r.j == j,
            r.last_i == false,
    {
        AlternatingNoRemainder { i, j, last_i: false }
    }

    /// Pull the next item from the side whose turn it is, or `None` --
    /// forever -- once either side has run out on its turn.
    pub fn next(&mut self) -> (item: Option<I::Item>)
        ensures
            old(self).remaining_items().len() > 0 ==> item == Some(old(self).remaining_items()[0])
                && final(self).remaining_items() == old(self).remaining_items().drop_first(),
            old(self).remaining_items().len() == 0 ==> item is None
                && final(self).remaining_items() == old(self).remaining_items(),
            item is Some && !old(self).last_i ==> final(self).j == old(self).j
                && final(self).i.pending() == old(self).i.pending().drop_first()
                && final(self).last_i,
            item is Some && old(self).last_i ==> final(self).i == old(self).i
                && final(self).j.pending() == old(self).j.pending().drop_first()
                && !final(self).last_i,
            item is None ==> final(self).i.pending() == old(self).i.pending()
                && final(self).j.pending() == old(self).j.pending()
                && final(self).last_i == old(self).last_i,
    {
        if self.last_i {
            if let Some(x) = self.j.try_next() {
                self.last_i = false;
                proof {
                    let a = old(self).j.pending();
                    let b = old(self).i.pending();
                    assert((seq![a[0]] + weave_strict(b, a.drop_first())).drop_first()
                        =~= weave_strict(b, a.drop_first()));
                }
                Some(x)
            } else {
                None
            }
        } else {
            if let Some(x) = self.i.try_next() {
                self.last_i = true;
                proof {
                    let a = old(self).i.pending();
                    let b = old(self).j.pending();
                    assert((seq![a[0]] + weave_strict(b, a.drop_first())).drop_first()
                        =~= weave_strict(b, a.drop_first()));
                }
                Some(x)
            } else {
                None
            }
        }
    }

    /// Report the adapter's `(min, max)` estimate of how many items are
    /// still to come.
    pub fn size_hint(&self) -> (hint: (usize, Option<usize>))
        ensures
            hint == self.spec_size_hint(),
    {
        let (i_lower, i_upper) = self.i.size_hint();
        let (j_lower, j_upper) = self.j.size_hint();
        let lower = saturating(min_and_1(i_lower, j_lower, self.last_i));
        let upper = match (i_upper, j_upper) {
            (Some(iu), Some(ju)) => checked(min_and_1(iu, ju, self.last_i)),
            (Some(iu), None) => checked((iu, self.last_i)),
            (None, Some(ju)) => checked((ju, !self.last_i)),
            (None, None) => None,
        };
        (lower, upper)
    }

    /// Keep pulling until exhaustion and say how many items came out.
    #[verifier::loop_isolation(false)]
    pub fn count(self) -> (n: usize)
        requires
            self.remaining_items().len() <= usize::MAX,
        ensures
            n == self.remaining_items().len(),
    {
        let ghost total = self.remaining_items().len();
        let mut it = self;
        let mut n: usize = 0;
        loop
            invariant
                n + it.remaining_items().len() == total,
            decreases it.remaining_items().len(),
        {
            match it.next() {
                Some(_) => {
                    n = n + 1;
                },
                None => {
                    return n;
                },
            }
        }
    }
}

/// Law: over sources whose reports are exact, the estimate never promises
/// more than the adapter delivers, and a reported maximum is exactly the
/// number of items the adapter yields in all (what
/// [`AlternatingNoRemainder::count`] returns).
pub proof fn lemma_no_remainder_hint_exact<I, J>(it: &AlternatingNoRemainder<I, J>) where
    I: Source,
    J: Source<Item = I::Item>,

    requires
        exact_source(&it.i),
        exact_source(&it.j),
    ensures
        it.spec_size_hint().1 matches Some(u) ==> u == it.remaining_items().len(),
        it.spec_size_hint().0 <= it.remaining_items().len(),
{
    if !it.last_i {
        lemma_weave_strict_len(it.i.pending(), it.j.pending());
    } else {
        lemma_weave_strict_len(it.j.pending(), it.i.pending());
    }
}

} // verus!
