//! Overflow-safe arithmetic shared by the bound estimates of the
//! interleaving adapters.
//!
//! Strict alternation over two sides can keep going for twice the length
//! of the shorter side, and for one call more when the longer side is due
//! strictly before the shorter side would recur.  The functions here
//! compute that `2 * m + bonus` quantity without ever wrapping: clamped to
//! `usize::MAX` where a clamp is wanted, or reported as unrepresentable
//! where it is not.

use vstd::prelude::*;

verus! {

/// The pair `(m, bonus)` for two per-side bounds `i` and `j`: `m` is the
/// smaller of the two, and `bonus` holds exactly when the longer side gets
/// one turn more than `2 * m` would allow.  `last_i` says whether the
/// `i` side produced the most recent item (so the `j` side is due next).
pub open spec fn spec_min_and_1(i: usize, j: usize, last_i: bool) -> (usize, bool) {
    if i < j {
        (i, last_i)
    } else if i == j {
        (i, false)
    } else {
        (j, !last_i)
    }
}

/// The exact value of `2 * m + bonus`, before any clamping.
pub open spec fn spec_total(p: (usize, bool)) -> int {
    2 * (p.0 as int) + (if p.1 {
        1int
    } else {
        0int
    })
}

/// `2 * m + bonus`, clamped to `usize::MAX` when it does not fit.
pub open spec fn spec_saturating(p: (usize, bool)) -> usize {
    if spec_total(p) > usize::MAX {
        usize::MAX
    } else {
        spec_total(p) as usize
    }
}

/// `2 * m + bonus`, or `None` when it does not fit in a `usize`.
pub open spec fn spec_checked(p: (usize, bool)) -> Option<usize> {
    if spec_total(p) > usize::MAX {
        None
    } else {
        Some(spec_total(p) as usize)
    }
}

/// Combine two per-side bounds into the shorter length `m` and the
/// one-more flag, as [`spec_min_and_1`] states.
pub fn min_and_1(i: usize, j: usize, last_i: bool) -> (r: (usize, bool))
    ensures
        r == spec_min_and_1(i, j, last_i),
{
    if i < j {
        (i, last_i)
    } else if i == j {
        (i, false)
    } else {
        (j, !last_i)
    }
}

/// Compute `2 * m + bonus`, saturating at `usize::MAX` instead of wrapping.
pub fn saturating(p: (usize, bool)) -> (r: usize)
    ensures
        r == spec_saturating(p),
{
    let (m, add_one) = p;
    let extra: usize = if add_one {
        1
    } else {
        0
    };
    let doubled = if m <= usize::MAX / 2 {
        m * 2
    } else {
        usize::MAX
    };
    doubled.saturating_add(extra)
}

/// Compute `2 * m + bonus`, or `None` when the value would exceed
/// `usize::MAX`.
pub fn checked(p: (usize, bool)) -> (r: Option<usize>)
    ensures
        r == spec_checked(p),
{
    let (m, add_one) = p;
    let extra: usize = if add_one {
        1
    } else {
        0
    };
    match m.checked_mul(2) {
        Some(doubled) => doubled.checked_add(extra),
        None => None,
    }
}

} // verus!
