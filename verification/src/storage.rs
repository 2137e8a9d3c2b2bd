//! The shape encoder's storage: nested fixed-shape component storage holding
//! exactly one component per coordinate, and the rank counter over it.

use vstd::prelude::*;
use crate::rank::NumRanks;
use crate::scalar::ScalarDefault;
use crate::shape::Shape;
use crate::shape::valid_dims;

verus! {

/// Nested component storage: a rank-0 value is a bare component; a
/// rank-(k+1) value is an ordered sequence of rank-k values, one per index of
/// the outermost remaining dimension.
#[derive(Debug, PartialEq, Eq)]
pub enum Ranks<S> {
    Component(S),
    Axis(Vec<Ranks<S>>),
}

/// The number of nesting levels of a storage value, read down its first
/// child; an empty axis still counts as one level.
pub open spec fn rank_of<S>(t: Ranks<S>) -> nat
    decreases t,
{
    match t {
        Ranks::Component(_) => 0,
        Ranks::Axis(children) => {
            if children@.len() == 0 {
                1
            } else {
                1 + rank_of(children@[0])
            }
        },
    }
}

/// The storage nests exactly as `dims` prescribes: one axis per dimension,
/// each axis of the dimension's length, components at the bottom.
pub open spec fn well_shaped<S>(t: Ranks<S>, dims: Seq<usize>) -> bool
    decreases dims.len(),
{
    if dims.len() == 0 {
        t is Component
    } else {
        &&& t is Axis
        &&& t->Axis_0@.len() == dims[0]
        &&& forall|i: int|
            0 <= i < dims[0] ==> well_shaped(#[trigger] t->Axis_0@[i], dims.skip(1))
    }
}

/// Every component stored anywhere in `t` equals `d`.
pub open spec fn all_components_equal<S>(t: Ranks<S>, d: S) -> bool
    decreases t,
{
    match t {
        Ranks::Component(c) => c == d,
        Ranks::Axis(children) => forall|i: int|
            0 <= i < children@.len() ==> all_components_equal(#[trigger] children@[i], d),
    }
}

/// Rank counting agrees with the shape encoder: storage nested as a valid
/// dimension list prescribes has exactly as many ranks as the list has
/// entries.
pub proof fn lemma_rank_counter_agrees<S>(t: Ranks<S>, dims: Seq<usize>)
    requires
        valid_dims(dims),
        well_shaped(t, dims),
    ensures
        rank_of(t) == dims.len(),
    decreases dims.len(),
{
    let children = t->Axis_0;
    assert(dims[0] >= 1);
    assert(well_shaped(children@[0], dims.skip(1)));
    assert(rank_of(t) == 1 + rank_of(children@[0]));
    if dims.len() == 1 {
        assert(children@[0] is Component);
    } else {
        assert(forall|j: int| 0 <= j < dims.skip(1).len() ==> #[trigger] dims.skip(1)[j] >= 1);
        lemma_rank_counter_agrees(children@[0], dims.skip(1));
    }
}

/// The encoding is unambiguous: a storage value nests as at most one valid
/// dimension list prescribes, so two distinct valid lists never share an
/// encoding.
pub proof fn lemma_shape_encoding_unambiguous<S>(
    t: Ranks<S>,
    dims1: Seq<usize>,
    dims2: Seq<usize>,
)
    requires
        valid_dims(dims1),
        valid_dims(dims2),
        well_shaped(t, dims1),
        well_shaped(t, dims2),
    ensures
        dims1 == dims2,
    decreases dims1.len(),
{
    let children = t->Axis_0;
    assert(dims1[0] >= 1);
    assert(children@.len() == dims1[0]);
    assert(children@.len() == dims2[0]);
    assert(well_shaped(children@[0], dims1.skip(1)));
    assert(well_shaped(children@[0], dims2.skip(1)));
    if dims1.len() == 1 {
        if dims2.len() > 1 {
            assert(children@[0] is Axis);
            assert(false);
        }
        assert(dims1 =~= dims2);
    } else if dims2.len() == 1 {
        assert(children@[0] is Component);
        assert(children@[0] is Axis);
        assert(false);
    } else {
        assert(forall|j: int| 0 <= j < dims1.skip(1).len() ==> #[trigger] dims1.skip(1)[j] >= 1);
        assert(forall|j: int| 0 <= j < dims2.skip(1).len() ==> #[trigger] dims2.skip(1)[j] >= 1);
        lemma_shape_encoding_unambiguous(children@[0], dims1.skip(1), dims2.skip(1));
        assert(dims1.len() == dims2.len());
        assert forall|i: int| 0 <= i < dims1.len() implies dims1[i] == dims2[i] by {
            if i > 0 {
                assert(dims1[i] == dims1.skip(1)[i - 1]);
                assert(dims2[i] == dims2.skip(1)[i - 1]);
            }
        }
        assert(dims1 =~= dims2);
    }
}

/// Builds the storage for the dimensions of `shape` from `level` down,
/// filling every component with the scalar's default value.
fn build_level<S: ScalarDefault>(shape: &Shape, level: usize) -> (r: Ranks<S>)
    requires
        level <= shape@.len(),
    ensures
        well_shaped(r, shape@.skip(level as int)),
        all_components_equal(r, S::default_spec()),
    decreases shape@.len() - level,
{
    if level == shape.rank() {
        Ranks::Component(S::scalar_default())
    } else {
        let d = shape.dim(level);
        let next_level = level + 1;
        let mut children: Vec<Ranks<S>> = Vec::new();
        let mut i: usize = 0;
        while i < d
            invariant
                level < shape@.len(),
                next_level == level + 1,
                d == shape@[level as int],
                i <= d,
                children@.len() == i,
                forall|j: int|
                    0 <= j < i ==> well_shaped(
                        #[trigger] children@[j],
                        shape@.skip(level as int + 1),
                    ),
                forall|j: int|
                    0 <= j < i ==> all_components_equal(#[trigger] children@[j], S::default_spec()),
            decreases d - i,
        {
            children.push(build_level(shape, next_level));
            i += 1;
        }
        proof {
            assert(shape@.skip(level as int).skip(1) =~= shape@.skip(level as int + 1));
            assert(shape@.skip(level as int)[0] == shape@[level as int]);
        }
        Ranks::Axis(children)
    }
}

/// The shape encoder's runtime face: produces the storage that nests exactly
/// as the shape prescribes, one default-valued component per coordinate.
pub fn encode_storage<S: ScalarDefault>(shape: &Shape) -> (r: Ranks<S>)
    ensures
        well_shaped(r, shape@),
        all_components_equal(r, S::default_spec()),
        shape.wf() ==> rank_of(r) == shape@.len(),
{
    let r = build_level(shape, 0);
    proof {
        assert(shape@.skip(0) =~= shape@);
        if shape.wf() {
            lemma_rank_counter_agrees(r, shape@);
        }
    }
    r
}

impl<S> NumRanks for Ranks<S> {
    open spec fn rank_spec(&self) -> nat {
        rank_of(*self)
    }

    open spec fn rank_countable(&self) -> bool {
        rank_of(*self) <= usize::MAX
    }

    fn num_ranks(&self) -> (r: usize)
        decreases *self,
    {
        match self {
            Ranks::Component(_) => 0,
            Ranks::Axis(children) => {
                if children.len() == 0 {
                    1
                } else {
                    1 + children[0].num_ranks()
                }
            },
        }
    }
}

} // verus!
