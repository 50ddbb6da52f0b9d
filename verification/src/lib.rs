//! Adapters that interleave the items of two pull-based sources into a
//! single sequence.
//!
//! A source is anything that implements [`Source`]: it hands out its items
//! one at a time through `try_next` and reports bounds on how many items
//! are still to come.  Three adapters combine two sources:
//!
//! - [`Alternating`] keeps taking turns forever; once one side is out of
//!   items, its turns simply yield nothing while the other side keeps
//!   being drained on every other call.
//! - [`AlternatingAll`] takes turns while both sides have items, then
//!   drains the rest of the surviving side in one uninterrupted run.
//! - [`AlternatingNoRemainder`] stops for good the moment either side runs
//!   out on its turn, discarding whatever the other side still holds.

use vstd::prelude::*;

pub mod alternating;
pub mod alternating_all;
pub mod alternating_no_remainder;
pub mod model;
pub mod source;
pub mod utils;

pub use alternating::Alternating;
pub use alternating_all::{AlternatingAll, Next};
pub use alternating_no_remainder::AlternatingNoRemainder;
pub use source::{HintedSource, Source, VecSource};

verus! {

/// Extension trait that adds adapter-building methods to every source.
///
/// Bringing it into scope lets two sources be combined by method call,
/// `left.alternate_with(right)` and the like; each method only forwards
/// to the corresponding adapter's constructor.
pub trait AlternatingExt: Source + Sized {
    /// Combine this source with another into an [`Alternating`] adapter
    /// over both; `self` is due first.  Once one side is exhausted, its
    /// turns yield nothing while the other side's remainder keeps coming
    /// on every other call.
    fn alternate_with<J: Source<Item = Self::Item>>(self, other: J) -> (r: Alternating<Self, J>)
        ensures
            r.i == self,
            r.j == other,
            r.i_next == true,
    {
        Alternating::new(self, other)
    }

    /// Combine this source with another into an [`AlternatingAll`]
    /// adapter over both; `self` is due first.  Once one side is
    /// exhausted, the other side's remainder comes out in one
    /// uninterrupted run.
    fn alternate_with_all<J: Source<Item = Self::Item>>(self, other: J) -> (r: AlternatingAll<
        Self,
        J,
    >)
        ensures
            r.i == self,
            r.j == other,
            r.cursor == Next::I,
    {
        AlternatingAll::new(self, other)
    }

    /// Combine this source with another into an
    /// [`AlternatingNoRemainder`] adapter over both; `self` is due
    /// first.  The first side to be exhausted on its turn ends the whole
    /// output; the other side's remainder is discarded.
    fn alternate_with_no_remainder<J: Source<Item = Self::Item>>(self, other: J) -> (
        r: AlternatingNoRemainder<Self, J>)
        ensures
            r.i == self,
            r.j == other,
            r.last_i == false,
    {
        AlternatingNoRemainder::new(self, other)
    }
}

impl<I: Source> AlternatingExt for I {
}

} // verus!
