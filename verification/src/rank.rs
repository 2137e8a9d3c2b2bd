//! The rank counter: every shaped value reports how many ranks (nesting
//! levels, dimensions) it carries.

use vstd::prelude::*;

verus! {

/// Implemented by every type of this crate that represents a shaped value:
/// `num_ranks` returns the number of ranks (dimensions) the value carries.
pub trait NumRanks {
    /// The mathematical rank count of this value.
    spec fn rank_spec(&self) -> nat;

    /// Holds where the rank count can be reported as a `usize`.
    spec fn rank_countable(&self) -> bool;

    fn num_ranks(&self) -> (r: usize)
        requires
            self.rank_countable(),
        ensures
            r as nat == self.rank_spec(),
    ;
}

} // verus!
