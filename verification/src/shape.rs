//! Shapes: validated, ordered lists of per-rank dimension lengths.

use vstd::prelude::*;
use crate::rank::NumRanks;

verus! {

/// A dimension list is valid when it is non-empty and every length is
/// positive.
pub open spec fn valid_dims(dims: Seq<usize>) -> bool {
    &&& dims.len() >= 1
    &&& forall|i: int| 0 <= i < dims.len() ==> #[trigger] dims[i] >= 1
}

/// Why a dimension list was rejected.
#[derive(Debug, Clone, Copy, PartialEq, Eq)]
pub enum ShapeError {
    /// The dimension list was empty.
    EmptyDimensionList,
    /// Some dimension length was zero.
    ZeroDimension,
}

/// An ordered list of per-rank dimension lengths, validated once at
/// construction: non-empty, every length positive, immutable afterwards.
#[derive(Debug, Clone, PartialEq, Eq)]
pub struct Shape {
    dims: Vec<usize>,
}

impl View for Shape {
    type V = Seq<usize>;

    closed spec fn view(&self) -> Seq<usize> {
        self.dims@
    }
}

impl Shape {
    /// Every `Shape` value satisfies this; construction rejects the rest.
    pub open spec fn wf(&self) -> bool {
        valid_dims(self@)
    }

    /// Validates a dimension list and fixes it as a shape: rejects an empty
    /// list and any zero length, accepts exactly the valid lists.
    pub fn encode(dims: Vec<usize>) -> (r: Result<Shape, ShapeError>)
        ensures
            r is Ok <==> valid_dims(dims@),
            r is Ok ==> r->Ok_0@ == dims@ && r->Ok_0.wf(),
            r is Err && dims@.len() == 0 ==> r->Err_0 == ShapeError::EmptyDimensionList,
            r is Err && dims@.len() >= 1 ==> r->Err_0 == ShapeError::ZeroDimension && (exists|i:
                int|
                0 <= i < dims@.len() && dims@[i] == 0),
    {
        if dims.len() == 0 {
            return Err(ShapeError::EmptyDimensionList);
        }
        let mut i: usize = 0;
        while i < dims.len()
            invariant
                0 <= i <= dims@.len(),
                forall|j: int| 0 <= j < i ==> #[trigger] dims@[j] >= 1,
            decreases dims@.len() - i,
        {
            if dims[i] == 0 {
                return Err(ShapeError::ZeroDimension);
            }
            i += 1;
        }
        Ok(Shape { dims })
    }

    /// The length of rank `i`.
    pub fn dim(&self, i: usize) -> (r: usize)
        requires
            i < self@.len(),
        ensures
            r == self@[i as int],
    {
        self.dims[i]
    }

    /// The whole dimension list.
    pub fn dims(&self) -> (r: &Vec<usize>)
        ensures
            r@ == self@,
    {
        &self.dims
    }

    /// The number of ranks, equal to the length of the dimension list the
    /// shape was encoded from.
    pub fn rank(&self) -> (r: usize)
        ensures
            r == self@.len(),
    {
        self.dims.len()
    }
}

impl NumRanks for Shape {
    open spec fn rank_spec(&self) -> nat {
        self@.len()
    }

    open spec fn rank_countable(&self) -> bool {
        true
    }

    fn num_ranks(&self) -> usize {
        self.dims.len()
    }
}

} // verus!
