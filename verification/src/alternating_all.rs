//! Interleaving with remainder, drained in one uninterrupted run.

use vstd::prelude::*;

use crate::model::{lemma_weave_len, weave};
use crate::source::{exact_source, Source};

verus! {

/// The cursor of an [`AlternatingAll`]: whose turn is next, or which side
/// is left once the other has been exhausted.
#[derive(Debug, Clone, Copy, PartialEq, Eq)]
pub enum Next {
    /// The `i` side is due next; both sides may still have items.
    I,
    /// The `j` side is due next; both sides may still have items.
    J,
    /// `j` has been exhausted: every further item comes from `i`.
    IAlways,
    /// `i` has been exhausted: every further item comes from `j`.
    JAlways,
}

/// Alternates between the items of two sources while both have any, then
/// drains the rest of the surviving side contiguously.
///
/// When the side whose turn it is runs out, the same call already answers
/// from the other side, and every later call keeps pulling from that
/// side alone.  Once both sides are exhausted every call returns `None`:
/// this adapter's exhaustion is sticky.
#[derive(Debug, Clone, Copy, PartialEq, Eq)]
pub struct AlternatingAll<I, J> where I: Source, J: Source<Item = I::Item> {
    /// The left source, due first after construction.
    pub i: I,
    /// The right source.
    pub j: J,
    /// The cursor: whose turn is next, or which side survives.
    pub cursor: Next,
}

impl<I, J> AlternatingAll<I, J> where I: Source, J: Source<Item = I::Item> {
    /// Everything this adapter will ever yield: the full interleaving of
    /// the two sides while taking turns, or the survivor's remainder once
    /// one side is gone.
    pub open spec fn remaining_items(&self) -> Seq<I::Item> {
        match self.cursor {
            Next::I => weave(self.i.pending(), self.j.pending()),
            Next::J => weave(self.j.pending(), self.i.pending()),
            Next::IAlways => self.i.pending(),
            Next::JAlways => self.j.pending(),
        }
    }

    /// The `(min, max)` estimate this adapter reports: since every item
    /// of both sides comes out, the two reported bounds are simply added,
    /// saturating for the minimum and giving up on the maximum when the
    /// sum does not fit or either side reports none.
    pub open spec fn spec_size_hint(&self) -> (usize, Option<usize>) {
        let lo_sum = self.i.reported_min() + self.j.reported_min();
        let lo: usize = if lo_sum > usize::MAX {
            usize::MAX
        } else {
            lo_sum as usize
        };
        let hi = match (self.i.reported_max(), self.j.reported_max()) {
            (Some(iu), Some(ju)) => if iu + ju > usize::MAX {
                None
            } else {
                Some((iu + ju) as usize)
            },
            _ => None,
        };
        (lo, hi)
    }

    /// Combine two sources into a bulk-draining alternating adapter; `i`
    /// is due first.
    pub fn new(i: I, j: J) -> (r: Self)
        ensures
            r.i == i,
            r.j == j,
            r.cursor == Next::I,
    {
        AlternatingAll { i, j, cursor: Next::I }
    }

    /// Pull the next item: from the side whose turn it is, from the
    /// surviving side once the other is exhausted, or `None` -- forever
    /// -- once both are.
    pub fn next(&mut self) -> (item: Option<I::Item>)
        ensures
            old(self).remaining_items().len() > 0 ==> item == Some(old(self).remaining_items()[0])
                && final(self).remaining_items() == old(self).remaining_items().drop_first(),
            old(self).remaining_items().len() == 0 ==> item is None
                && final(self).remaining_items() == old(self).remaining_items(),
    {
        match self.cursor {
            Next::I => {
                if let Some(x) = self.i.try_next() {
                    self.cursor = Next::J;
                    proof {
                        let a = old(self).i.pending();
                        let b = old(self).j.pending();
                        assert((seq![a[0]] + weave(b, a.drop_first())).drop_first() =~= weave(
                            b,
                            a.drop_first(),
                        ));
                    }
                    Some(x)
                } else {
                    self.cursor = Next::JAlways;
                    self.j.try_next()
                }
            },
            Next::J => {
                if let Some(x) = self.j.try_next() {
                    self.cursor = Next::I;
                    proof {
                        let a = old(self).j.pending();
                        let b = old(self).i.pending();
                        assert((seq![a[0]] + weave(b, a.drop_first())).drop_first() =~= weave(
                            b,
                            a.drop_first(),
                        ));
                    }
                    Some(x)
                } else {
                    self.cursor = Next::IAlways;
                    self.i.try_next()
                }
            },
            Next::IAlways => self.i.try_next(),
            Next::JAlways => self.j.try_next(),
        }
    }

    /// Report the adapter's `(min, max)` estimate of how many items are
    /// still to come.
    pub fn size_hint(&self) -> (hint: (usize, Option<usize>))
        ensures
            hint == self.spec_size_hint(),
    {
        let (i_lower, i_upper) = self.i.size_hint();
        let (j_lower, j_upper) = self.j.size_hint();
        let lower = i_lower.saturating_add(j_lower);
        let upper = match (i_upper, j_upper) {
            (Some(iu), Some(ju)) => iu.checked_add(ju),
            _ => None,
        };
        (lower, upper)
    }

    /// Keep pulling until exhaustion and say how many items came out.
    #[verifier::loop_isolation(false)]
    pub fn count(self) -> (n: usize)
        requires
            self.remaining_items().len() <= usize::MAX,
        ensures
            n == self.remaining_items().len(),
    {
        let ghost total = self.remaining_items().len();
        let mut it = self;
        let mut n: usize = 0;
        loop
            invariant
                n + it.remaining_items().len() == total,
            decreases it.remaining_items().len(),
        {
            match it.next() {
                Some(_) => {
                    n = n + 1;
                },
                None => {
                    return n;
                },
            }
        }
    }
}

/// Law: over sources whose reports are exact, the estimate never promises
/// more than the adapter delivers, and a reported maximum is exactly the
/// number of items the adapter yields in all (what
/// [`AlternatingAll::count`] returns).  In a drained state the exhausted
/// side is pending-free, as every run of the adapter leaves it.
pub proof fn lemma_all_hint_exact<I, J>(it: &AlternatingAll<I, J>) where
    I: Source,
    J: Source<Item = I::Item>,

    requires
        exact_source(&it.i),
        exact_source(&it.j),
        it.cursor == Next::IAlways ==> it.j.pending().len() == 0,
        it.cursor == Next::JAlways ==> it.i.pending().len() == 0,
    ensures
        it.spec_size_hint().1 matches Some(u) ==> u == it.remaining_items().len(),
        it.spec_size_hint().0 <= it.remaining_items().len(),
{
    match it.cursor {
        Next::I => lemma_weave_len(it.i.pending(), it.j.pending()),
        Next::J => lemma_weave_len(it.j.pending(), it.i.pending()),
        Next::IAlways => (),
        Next::JAlways => (),
    }
}

} // verus!
