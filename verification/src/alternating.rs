//! Interleaving with remainder, drained one item per turn.

use vstd::prelude::*;

use crate::model::{lemma_weave_empty, lemma_weave_strict_len, weave, weave_strict};
use crate::source::{exact_source, Source};
use crate::utils::{
    checked, min_and_1, saturating, spec_checked, spec_min_and_1, spec_saturating,
};

verus! {

/// Alternates between the items of two sources, forever.
///
/// Each call to [`next`](Alternating::next) pulls from the side whose turn
/// it is and hands back whatever that side produced, `None` included: an
/// exhausted side keeps taking its turns and keeps contributing nothing,
/// while the other side is still drained on every other call.  A `None`
/// from this adapter is therefore not sticky; pulling again may well
/// produce further items.
#[derive(Debug, Clone, Copy, PartialEq, Eq)]
pub struct Alternating<I, J> where I: Source, J: Source<Item = I::Item> {
    /// The left source, due first after construction.
    pub i: I,
    /// The right source.
    pub j: J,
    /// The cursor: whether the left source is due on the next call.
    pub i_next: bool,
}

impl<I, J> Alternating<I, J> where I: Source, J: Source<Item = I::Item> {
    /// The pending items of whichever side is due on the next call.
    pub open spec fn due_pending(&self) -> Seq<I::Item> {
        if self.i_next {
            self.i.pending()
        } else {
            self.j.pending()
        }
    }

    /// The items yielded from here up to (not including) the first `None`:
    /// the strict interleaving of the two sides, the due side first.
    pub open spec fn first_run(&self) -> Seq<I::Item> {
        if self.i_next {
            weave_strict(self.i.pending(), self.j.pending())
        } else {
            weave_strict(self.j.pending(), self.i.pending())
        }
    }

    /// All items this adapter ever yields, with the `None` turns of an
    /// exhausted side left out: the full interleaving, the due side first.
    pub open spec fn remaining_items(&self) -> Seq<I::Item> {
        if self.i_next {
            weave(self.i.pending(), self.j.pending())
        } else {
            weave(self.j.pending(), self.i.pending())
        }
    }

    /// The `(min, max)` estimate this adapter reports, computed from the
    /// sides' reported bounds: strict alternation runs for twice the
    /// shorter side's bound, plus one when the longer side is due before
    /// the shorter one would recur.  A side without a reported maximum is
    /// treated as endless: only the other side can then cut the output
    /// short.
    pub open spec fn spec_size_hint(&self) -> (usize, Option<usize>) {
        let last_i = !self.i_next;
        let lo = spec_saturating(
            spec_min_and_1(self.i.reported_min(), self.j.reported_min(), last_i),
        );
        let hi = match (self.i.reported_max(), self.j.reported_max()) {
            (Some(iu), Some(ju)) => spec_checked(spec_min_and_1(iu, ju, last_i)),
            (Some(iu), None) => spec_checked((iu, last_i)),
            (None, Some(ju)) => spec_checked((ju, !last_i)),
            (None, None) => None,
        };
        (lo, hi)
    }

    /// Combine two sources into an alternating adapter; `i` is due first.
    pub fn new(i: I, j: J) -> (r: Self)
        ensures
            r.i == i,
            r.j == j,
            r.i_next == true,
    {
        Alternating { i, j, i_next: true }
    }

    /// Pull the next item from the side whose turn it is.
    ///
    /// The turn passes to the other side in any case.  The due side's
    /// answer is handed back as it is: its first pending item, or `None`
    /// exactly when it has none left, even if the other side still holds
    /// items.
    pub fn next(&mut self) -> (item: Option<I::Item>)
        ensures
            final(self).i_next == !old(self).i_next,
            old(self).i_next ==> final(self).j == old(self).j,
            !old(self).i_next ==> final(self).i == old(self).i,
            match item {
                Some(x) => old(self).due_pending().len() > 0 && x == old(self).due_pending()[0],
                None => old(self).due_pending().len() == 0,
            },
            old(self).i_next && old(self).i.pending().len() > 0 ==> final(self).i.pending()
                == old(self).i.pending().drop_first(),
            old(self).i_next && old(self).i.pending().len() == 0 ==> final(self).i.pending()
                == old(self).i.pending(),
            !old(self).i_next && old(self).j.pending().len() > 0 ==> final(self).j.pending()
                == old(self).j.pending().drop_first(),
            !old(self).i_next && old(self).j.pending().len() == 0 ==> final(self).j.pending()
                == old(self).j.pending(),
            item is Some ==> old(self).first_run().len() > 0
                && item == Some(old(self).first_run()[0])
                && final(self).first_run() == old(self).first_run().drop_first(),
            item is None ==> old(self).first_run().len() == 0,
            item is Some ==> item == Some(old(self).remaining_items()[0])
                && final(self).remaining_items() == old(self).remaining_items().drop_first(),
            item is None ==> final(self).remaining_items() == old(self).remaining_items(),
    {
        if self.i_next {
            self.i_next = false;
            let item = self.i.try_next();
            proof {
                let a = old(self).i.pending();
                let b = old(self).j.pending();
                if a.len() > 0 {
                    assert((seq![a[0]] + weave_strict(b, a.drop_first())).drop_first()
                        =~= weave_strict(b, a.drop_first()));
                    assert((seq![a[0]] + weave(b, a.drop_first())).drop_first() =~= weave(
                        b,
                        a.drop_first(),
                    ));
                } else {
                    lemma_weave_empty(b);
                    assert(a =~= Seq::<I::Item>::empty());
                }
            }
            item
        } else {
            self.i_next = true;
            let item = self.j.try_next();
            proof {
                let a = old(self).j.pending();
                let b = old(self).i.pending();
                if a.len() > 0 {
                    assert((seq![a[0]] + weave_strict(b, a.drop_first())).drop_first()
                        =~= weave_strict(b, a.drop_first()));
                    assert((seq![a[0]] + weave(b, a.drop_first())).drop_first() =~= weave(
                        b,
                        a.drop_first(),
                    ));
                } else {
                    lemma_weave_empty(b);
                    assert(a =~= Seq::<I::Item>::empty());
                }
            }
            item
        }
    }

    /// Report the adapter's `(min, max)` estimate of how many items are
    /// still to come before it first signals exhaustion.
    pub fn size_hint(&self) -> (hint: (usize, Option<usize>))
        ensures
            hint == self.spec_size_hint(),
    {
        let (i_lower, i_upper) = self.i.size_hint();
        let (j_lower, j_upper) = self.j.size_hint();
        let last_i = !self.i_next;
        let lower = saturating(min_and_1(i_lower, j_lower, last_i));
        let upper = match (i_upper, j_upper) {
            (Some(iu), Some(ju)) => checked(min_and_1(iu, ju, last_i)),
            (Some(iu), None) => checked((iu, last_i)),
            (None, Some(ju)) => checked((ju, !last_i)),
            (None, None) => None,
        };
        (lower, upper)
    }

    /// Keep pulling until the first exhaustion signal and say how many
    /// items came out.
    #[verifier::loop_isolation(false)]
    pub fn count(self) -> (n: usize)
        requires
            self.first_run().len() <= usize::MAX,
        ensures
            n == self.first_run().len(),
    {
        let ghost total = self.first_run().len();
        let mut it = self;
        let mut n: usize = 0;
        loop
            invariant
                n + it.first_run().len() == total,
                total <= usize::MAX,
            decreases it.first_run().len(),
        {
            match it.next() {
                Some(_) => {
                    n = n + 1;
                },
                None => {
                    return n;
                },
            }
        }
    }
}

/// Law: over sources whose reports are exact, the estimate never promises
/// more than the adapter delivers, and a reported maximum is exactly the
/// number of items yielded before the first exhaustion signal (what
/// [`Alternating::count`] returns).
pub proof fn lemma_alternating_hint_exact<I, J>(it: &Alternating<I, J>) where
    I: Source,
    J: Source<Item = I::Item>,

    requires
        exact_source(&it.i),
        exact_source(&it.j),
    ensures
        it.spec_size_hint().1 matches Some(u) ==> u == it.first_run().len(),
        it.spec_size_hint().0 <= it.first_run().len(),
{
    if it.i_next {
        lemma_weave_strict_len(it.i.pending(), it.j.pending());
    } else {
        lemma_weave_strict_len(it.j.pending(), it.i.pending());
    }
}

} // verus!
