//! The pull-based producer abstraction the adapters are built over, and
//! two ready-made producers backed by a `Vec`.

use vstd::prelude::*;

verus! {

/// A pull-based supplier of items, polled one at a time.
///
/// `pending()` is the sequence of items the source has yet to hand out;
/// `try_next` produces them in order and signals exhaustion with `None`
/// once they are gone.  Independently of its contents, a source reports a
/// lower bound and an optional upper bound on how many items are still to
/// come; reports need not be truthful (see [`exact_source`] for sources
/// whose reports are exact), but what `size_hint` returns is pinned to
/// them.
pub trait Source {
    /// The type of the items this source produces.
    type Item;

    /// The items this source has yet to produce, in order.
    spec fn pending(&self) -> Seq<Self::Item>;

    /// The lower bound this source reports on its number of pending items.
    spec fn reported_min(&self) -> usize;

    /// The upper bound this source reports, if it reports one at all.
    spec fn reported_max(&self) -> Option<usize>;

    /// Produce the next pending item, or `None` exactly when none are
    /// left, in which case the pending sequence stays empty.
    fn try_next(&mut self) -> (item: Option<Self::Item>)
        ensures
            match item {
                Some(x) => old(self).pending().len() > 0 && x == old(self).pending()[0]
                    && final(self).pending() == old(self).pending().drop_first(),
                None => old(self).pending().len() == 0 && final(self).pending() == old(
                    self,
                ).pending(),
            },
    ;

    /// Report `(min, max)` bounds on the number of pending items.
    fn size_hint(&self) -> (hint: (usize, Option<usize>))
        ensures
            hint.0 == self.reported_min(),
            hint.1 == self.reported_max(),
    ;
}

/// A source whose reported bounds are exactly its number of pending items.
pub open spec fn exact_source<S: Source>(s: &S) -> bool {
    &&& s.pending().len() <= usize::MAX
    &&& s.reported_min() == s.pending().len()
    &&& s.reported_max() == Some(s.reported_min())
}

/// A finite source that hands out the elements of a `Vec` in order and
/// reports its remaining length exactly.
pub struct VecSource<T> {
    items: Vec<T>,
    pos: usize,
}

impl<T> VecSource<T> {
    #[verifier::type_invariant]
    spec fn type_inv(self) -> bool {
        self.pos <= self.items@.len()
    }
}

impl<T: Copy> VecSource<T> {
    /// Wrap a `Vec` as a source over its elements.
    pub fn new(items: Vec<T>) -> (s: Self)
        ensures
            s.pending() == items@,
            exact_source(&s),
    {
        let s = VecSource { items, pos: 0 };
        proof {
            assert(s.pending() =~= s.items@);
            assert(s.items.len() == s.items@.len());
        }
        s
    }
}

impl<T: Copy> Source for VecSource<T> {
    type Item = T;

    closed spec fn pending(&self) -> Seq<T> {
        self.items@.skip(self.pos as int)
    }

    closed spec fn reported_min(&self) -> usize {
        if self.pos <= self.items@.len() {
            (self.items@.len() - self.pos) as usize
        } else {
            0
        }
    }

    closed spec fn reported_max(&self) -> Option<usize> {
        Some(self.reported_min())
    }

    fn try_next(&mut self) -> (item: Option<T>) {
        proof {
            use_type_invariant(&*self);
        }
        if self.pos < self.items.len() {
            let x = self.items[self.pos];
            self.pos = self.pos + 1;
            proof {
                assert(final(self).pending() =~= old(self).pending().drop_first());
            }
            Some(x)
        } else {
            None
        }
    }

    fn size_hint(&self) -> (hint: (usize, Option<usize>)) {
        proof {
            use_type_invariant(&*self);
        }
        let remaining = self.items.len() - self.pos;
        (remaining, Some(remaining))
    }
}

/// A source that produces the elements of a `Vec` but reports whatever
/// bounds it was given, regardless of how many items it actually holds.
///
/// This stands in for producers whose reports are estimates rather than
/// exact counts, such as one that declines to name an upper bound.
pub struct HintedSource<T> {
    inner: VecSource<T>,
    min: usize,
    max: Option<usize>,
}

impl<T: Copy> HintedSource<T> {
    /// Wrap a `Vec` as a source that reports the given bounds.
    pub fn new(items: Vec<T>, min: usize, max: Option<usize>) -> (s: Self)
        ensures
            s.pending() == items@,
            s.reported_min() == min,
            s.reported_max() == max,
    {
        HintedSource { inner: VecSource::new(items), min, max }
    }
}

impl<T: Copy> Source for HintedSource<T> {
    type Item = T;

    closed spec fn pending(&self) -> Seq<T> {
        self.inner.pending()
    }

    closed spec fn reported_min(&self) -> usize {
        self.min
    }

    closed spec fn reported_max(&self) -> Option<usize> {
        self.max
    }

    fn try_next(&mut self) -> (item: Option<T>) {
        self.inner.try_next()
    }

    fn size_hint(&self) -> (hint: (usize, Option<usize>)) {
        (self.min, self.max)
    }
}

} // verus!
