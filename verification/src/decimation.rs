//! Reading the outcome of a decimation run.
//!
//! A run is asked for a number of collapses and reports how many it performed.
//! It performs fewer when the mesh runs out of legal collapses, and that is no
//! error of the run: it is for the caller to notice. This module does the
//! noticing.

use vstd::prelude::*;

verus! {

/// How many of the collapses asked for were not performed.
pub open spec fn collapses_short(requested: int, performed: int) -> int {
    if performed < requested {
        requested - performed
    } else {
        0
    }
}

/// Sets the collapses a run performed against those asked for. The result is
/// zero exactly when the run did all that was asked of it.
pub fn missing_collapses(requested: usize, performed: usize) -> (missing: usize)
    ensures
        missing == collapses_short(requested as int, performed as int),
        missing == 0 <==> performed >= requested,
{
    if performed < requested {
        requested - performed
    } else {
        0
    }
}

} // verus!
