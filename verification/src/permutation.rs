//! Permutation descriptors: metadata recording how rank positions have been
//! reordered. Only the identity case exists here; richer reorder tracking is
//! a separate extension, not an assumed behaviour.

use vstd::prelude::*;
use crate::rank::NumRanks;
use crate::shape::Shape;

verus! {

/// Slot `i` of an identity descriptor names rank `i`.
pub open spec fn is_identity(slots: Seq<usize>) -> bool {
    forall|i: int| 0 <= i < slots.len() ==> #[trigger] slots[i] == i
}

/// An ordered list of slots, one per rank, each naming the original rank
/// index now held at that position. Every descriptor built here is the
/// identity: slot `i` holds rank `i`.
#[derive(Debug, Clone, PartialEq, Eq)]
pub struct PermutationDescriptor {
    slots: Vec<usize>,
}

impl View for PermutationDescriptor {
    type V = Seq<usize>;

    closed spec fn view(&self) -> Seq<usize> {
        self.slots@
    }
}

impl PermutationDescriptor {
    /// Every descriptor is an identity mapping.
    pub open spec fn wf(&self) -> bool {
        is_identity(self@)
    }

    /// The permutation builder: one slot per dimension of the shape, in the
    /// shape's own left-to-right order, each slot naming its own rank.
    pub fn build(shape: &Shape) -> (p: PermutationDescriptor)
        ensures
            p@.len() == shape@.len(),
            p.wf(),
    {
        Self::identity(shape.rank())
    }

    /// The identity descriptor over `rank` slots.
    pub fn identity(rank: usize) -> (p: PermutationDescriptor)
        ensures
            p@.len() == rank,
            p.wf(),
    {
        let mut slots: Vec<usize> = Vec::new();
        let mut i: usize = 0;
        while i < rank
            invariant
                i <= rank,
                slots@.len() == i,
                forall|j: int| 0 <= j < i ==> #[trigger] slots@[j] == j,
            decreases rank - i,
        {
            slots.push(i);
            i += 1;
        }
        PermutationDescriptor { slots }
    }

    /// The original rank index recorded at slot `i`; for every descriptor
    /// built here this is `i` itself.
    pub fn slot(&self, i: usize) -> (r: usize)
        requires
            i < self@.len(),
        ensures
            r == self@[i as int],
            self.wf() ==> r == i,
    {
        self.slots[i]
    }
}

impl NumRanks for PermutationDescriptor {
    open spec fn rank_spec(&self) -> nat {
        self@.len()
    }

    open spec fn rank_countable(&self) -> bool {
        true
    }

    fn num_ranks(&self) -> usize {
        self.slots.len()
    }
}

/// The permutation builder agrees with the rank counter: a descriptor with
/// one slot per entry of a dimension list has exactly as many ranks as the
/// list has entries.
pub proof fn lemma_permutation_builder_rank(p: PermutationDescriptor, dims: Seq<usize>)
    requires
        p@.len() == dims.len(),
    ensures
        p.rank_spec() == dims.len(),
{
}

} // verus!
