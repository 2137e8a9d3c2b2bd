//! The tensor value type and the elementwise arithmetic engine.
//!
//! A `Tensor<S, N>` is a rank-1 tensor of exactly `N` components. `N` is a
//! type parameter, so combining tensors of different lengths is a type
//! error, never a runtime one. The arithmetic is generic over two possibly
//! different component types through the `core::ops` traits: the result
//! component type is the operator's own output type, and any unit
//! conversion between compatible quantities is entirely the component
//! types' business — the engine only composes per index.

use vstd::prelude::*;
use vstd::std_specs::ops::AddSpec;
use vstd::std_specs::ops::DivSpec;
use vstd::std_specs::ops::MulSpec;
use vstd::std_specs::ops::NegSpec;
use vstd::std_specs::ops::SubSpec;
use crate::permutation::PermutationDescriptor;
use crate::rank::NumRanks;
use crate::scalar::ScalarDefault;
use crate::shape::Shape;

verus! {

/// What elementwise addition returns: component `i` is `a[i] + b[i]`.
pub open spec fn elem_add_spec<A: core::ops::Add<B>, B>(a: Seq<A>, b: Seq<B>) -> Seq<
    <A as core::ops::Add<B>>::Output,
> {
    Seq::new(a.len(), |i: int| a[i].add_spec(b[i]))
}

/// What elementwise subtraction returns: component `i` is `a[i] - b[i]`.
pub open spec fn elem_sub_spec<A: core::ops::Sub<B>, B>(a: Seq<A>, b: Seq<B>) -> Seq<
    <A as core::ops::Sub<B>>::Output,
> {
    Seq::new(a.len(), |i: int| a[i].sub_spec(b[i]))
}

/// What uniform scaling returns: component `i` is `a[i] * c`.
pub open spec fn scalar_mul_spec<A: core::ops::Mul<C>, C>(a: Seq<A>, c: C) -> Seq<
    <A as core::ops::Mul<C>>::Output,
> {
    Seq::new(a.len(), |i: int| a[i].mul_spec(c))
}

/// What uniform division returns: component `i` is `a[i] / c`.
pub open spec fn scalar_div_spec<A: core::ops::Div<C>, C>(a: Seq<A>, c: C) -> Seq<
    <A as core::ops::Div<C>>::Output,
> {
    Seq::new(a.len(), |i: int| a[i].div_spec(c))
}

/// What negation returns: component `i` is `-a[i]`.
pub open spec fn elem_neg_spec<A: core::ops::Neg>(a: Seq<A>) -> Seq<
    <A as core::ops::Neg>::Output,
> {
    Seq::new(a.len(), |i: int| a[i].neg_spec())
}

/// A rank-1 tensor: exactly `N` components of `S`, in shape order, owned
/// inline and immutable after construction. Arithmetic never mutates an
/// operand; it always produces a new tensor.
#[derive(Debug, Clone, PartialEq, Eq)]
pub struct Tensor<S, const N: usize> {
    components: Vec<S>,
}

impl<S, const N: usize> View for Tensor<S, N> {
    type V = Seq<S>;

    closed spec fn view(&self) -> Seq<S> {
        self.components@
    }
}

impl<S, const N: usize> Tensor<S, N> {
    /// Every constructed tensor holds exactly `N` components.
    pub open spec fn wf(&self) -> bool {
        self@.len() == N
    }

    /// Constructs a tensor from exactly `N` components; nothing beyond the
    /// count is validated.
    pub fn new(components: Vec<S>) -> (t: Self)
        requires
            components@.len() == N,
        ensures
            t@ == components@,
            t.wf(),
    {
        Tensor { components }
    }

    /// Read access to component `i`; an index outside `0..N` is excluded
    /// here, so no runtime failure path exists.
    pub fn index(&self, i: usize) -> (r: &S)
        requires
            self.wf(),
            i < N,
        ensures
            *r == self@[i as int],
    {
        &self.components[i]
    }

    /// The shape of this tensor: the single dimension list `[N]`.
    pub fn shape(&self) -> (s: Shape)
        requires
            N >= 1,
        ensures
            s@ =~= seq![N],
            s.wf(),
    {
        let mut dims: Vec<usize> = Vec::new();
        dims.push(N);
        proof {
            assert(dims@ =~= seq![N]);
        }
        match Shape::encode(dims) {
            Ok(s) => s,
            Err(_) => vstd::pervasive::unreached(),
        }
    }

    /// The permutation metadata of this tensor: the identity descriptor over
    /// its single rank.
    pub fn permutation(&self) -> (p: PermutationDescriptor)
        ensures
            p@.len() == 1,
            p.wf(),
    {
        PermutationDescriptor::identity(1)
    }
}

impl<A: Copy, const N: usize> Tensor<A, N> {
    /// Elementwise addition: component `i` of the result is
    /// `self[i] + rhs[i]`, each index computed independently. Both operands
    /// share `N` by type, and the result component type is whatever adding
    /// one `A` to one `B` yields.
    pub fn elem_add<B: Copy, R>(&self, rhs: &Tensor<B, N>) -> (r: Tensor<R, N>)
        where A: core::ops::Add<B, Output = R>
        requires
            self.wf(),
            rhs.wf(),
            forall|i: int| 0 <= i < N ==> (#[trigger] self@[i]).add_req(rhs@[i]),
        ensures
            r.wf(),
            A::obeys_add_spec() ==> r@ == elem_add_spec(self@, rhs@),
    {
        let mut out: Vec<R> = Vec::new();
        let mut i: usize = 0;
        while i < N
            invariant
                self.wf(),
                rhs.wf(),
                forall|k: int| 0 <= k < N ==> (#[trigger] self@[k]).add_req(rhs@[k]),
                i <= N,
                out@.len() == i,
                A::obeys_add_spec() ==> forall|j: int|
                    0 <= j < i ==> #[trigger] out@[j] == self@[j].add_spec(rhs@[j]),
            decreases N - i,
        {
            let x = self.components[i];
            let y = rhs.components[i];
            out.push(x.add(y));
            i += 1;
        }
        let t = Tensor { components: out };
        proof {
            if A::obeys_add_spec() {
                assert(t@ =~= elem_add_spec(self@, rhs@));
            }
        }
        t
    }

    /// Elementwise subtraction: component `i` of the result is
    /// `self[i] - rhs[i]`.
    pub fn elem_sub<B: Copy, R>(&self, rhs: &Tensor<B, N>) -> (r: Tensor<R, N>)
        where A: core::ops::Sub<B, Output = R>
        requires
            self.wf(),
            rhs.wf(),
            forall|i: int| 0 <= i < N ==> (#[trigger] self@[i]).sub_req(rhs@[i]),
        ensures
            r.wf(),
            A::obeys_sub_spec() ==> r@ == elem_sub_spec(self@, rhs@),
    {
        let mut out: Vec<R> = Vec::new();
        let mut i: usize = 0;
        while i < N
            invariant
                self.wf(),
                rhs.wf(),
                forall|k: int| 0 <= k < N ==> (#[trigger] self@[k]).sub_req(rhs@[k]),
                i <= N,
                out@.len() == i,
                A::obeys_sub_spec() ==> forall|j: int|
                    0 <= j < i ==> #[trigger] out@[j] == self@[j].sub_spec(rhs@[j]),
            decreases N - i,
        {
            let x = self.components[i];
            let y = rhs.components[i];
            out.push(x.sub(y));
            i += 1;
        }
        let t = Tensor { components: out };
        proof {
            if A::obeys_sub_spec() {
                assert(t@ =~= elem_sub_spec(self@, rhs@));
            }
        }
        t
    }

    /// Uniform scaling: the same scalar multiplies every component.
    pub fn scalar_mul<C: Copy, R>(&self, c: C) -> (r: Tensor<R, N>)
        where A: core::ops::Mul<C, Output = R>
        requires
            self.wf(),
            forall|i: int| 0 <= i < N ==> (#[trigger] self@[i]).mul_req(c),
        ensures
            r.wf(),
            A::obeys_mul_spec() ==> r@ == scalar_mul_spec(self@, c),
    {
        let mut out: Vec<R> = Vec::new();
        let mut i: usize = 0;
        while i < N
            invariant
                self.wf(),
                forall|k: int| 0 <= k < N ==> (#[trigger] self@[k]).mul_req(c),
                i <= N,
                out@.len() == i,
                A::obeys_mul_spec() ==> forall|j: int|
                    0 <= j < i ==> #[trigger] out@[j] == self@[j].mul_spec(c),
            decreases N - i,
        {
            let x = self.components[i];
            out.push(x.mul(c));
            i += 1;
        }
        let t = Tensor { components: out };
        proof {
            if A::obeys_mul_spec() {
                assert(t@ =~= scalar_mul_spec(self@, c));
            }
        }
        t
    }

    /// Uniform division: the same scalar divides every component. What a
    /// zero divisor means is the component type's own business; where its
    /// division is partial, the excluded divisors are excluded here too.
    pub fn scalar_div<C: Copy, R>(&self, c: C) -> (r: Tensor<R, N>)
        where A: core::ops::Div<C, Output = R>
        requires
            self.wf(),
            forall|i: int| 0 <= i < N ==> (#[trigger] self@[i]).div_req(c),
        ensures
            r.wf(),
            A::obeys_div_spec() ==> r@ == scalar_div_spec(self@, c),
    {
        let mut out: Vec<R> = Vec::new();
        let mut i: usize = 0;
        while i < N
            invariant
                self.wf(),
                forall|k: int| 0 <= k < N ==> (#[trigger] self@[k]).div_req(c),
                i <= N,
                out@.len() == i,
                A::obeys_div_spec() ==> forall|j: int|
                    0 <= j < i ==> #[trigger] out@[j] == self@[j].div_spec(c),
            decreases N - i,
        {
            let x = self.components[i];
            out.push(x.div(c));
            i += 1;
        }
        let t = Tensor { components: out };
        proof {
            if A::obeys_div_spec() {
                assert(t@ =~= scalar_div_spec(self@, c));
            }
        }
        t
    }

    /// Elementwise negation: component `i` of the result is `-self[i]`.
    pub fn negated<R>(&self) -> (r: Tensor<R, N>)
        where A: core::ops::Neg<Output = R>
        requires
            self.wf(),
            forall|i: int| 0 <= i < N ==> (#[trigger] self@[i]).neg_req(),
        ensures
            r.wf(),
            A::obeys_neg_spec() ==> r@ == elem_neg_spec(self@),
    {
        let mut out: Vec<R> = Vec::new();
        let mut i: usize = 0;
        while i < N
            invariant
                self.wf(),
                forall|k: int| 0 <= k < N ==> (#[trigger] self@[k]).neg_req(),
                i <= N,
                out@.len() == i,
                A::obeys_neg_spec() ==> forall|j: int|
                    0 <= j < i ==> #[trigger] out@[j] == self@[j].neg_spec(),
            decreases N - i,
        {
            let x = self.components[i];
            out.push(x.neg());
            i += 1;
        }
        let t = Tensor { components: out };
        proof {
            if A::obeys_neg_spec() {
                assert(t@ =~= elem_neg_spec(self@));
            }
        }
        t
    }
}

impl<S: ScalarDefault, const N: usize> Default for Tensor<S, N> {
    /// A default tensor has every one of its `N` components equal to the
    /// component type's default value.
    fn default() -> (t: Self)
        ensures
            t.wf(),
            forall|i: int| 0 <= i < N ==> #[trigger] t@[i] == S::default_spec(),
    {
        let mut components: Vec<S> = Vec::new();
        let mut i: usize = 0;
        while i < N
            invariant
                i <= N,
                components@.len() == i,
                forall|j: int| 0 <= j < i ==> #[trigger] components@[j] == S::default_spec(),
            decreases N - i,
        {
            components.push(S::scalar_default());
            i += 1;
        }
        Tensor { components }
    }
}

impl<S, const N: usize> NumRanks for Tensor<S, N> {
    open spec fn rank_spec(&self) -> nat {
        1
    }

    open spec fn rank_countable(&self) -> bool {
        true
    }

    fn num_ranks(&self) -> usize {
        1
    }
}

} // verus!
