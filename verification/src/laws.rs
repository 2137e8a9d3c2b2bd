//! Algebraic laws of the elementwise arithmetic engine, proved for exact
//! integer components. The floating-point forms of these laws are
//! tolerance-bounded and live with the test suite; exact components admit
//! the equalities themselves.

use vstd::prelude::*;
use vstd::arithmetic::div_mod::lemma_remainder;
use vstd::std_specs::ops::AddSpec;
use vstd::std_specs::ops::DivSpec;
use vstd::std_specs::ops::MulSpec;
use vstd::std_specs::ops::NegSpec;
use vstd::std_specs::ops::SubSpec;
use crate::tensor::Tensor;
use crate::tensor::elem_add_spec;
use crate::tensor::elem_neg_spec;
use crate::tensor::elem_sub_spec;
use crate::tensor::scalar_div_spec;
use crate::tensor::scalar_mul_spec;

verus! {

/// Inverse law: subtracting `a` from `a + b` elementwise gives back exactly
/// `b`, wherever every componentwise sum stays in range.
pub proof fn lemma_add_sub_inverse<const N: usize>(a: Tensor<i64, N>, b: Tensor<i64, N>)
    requires
        a.wf(),
        b.wf(),
        forall|i: int| 0 <= i < N ==> i64::MIN <= (#[trigger] a@[i]) + b@[i] <= i64::MAX,
    ensures
        elem_sub_spec(elem_add_spec(a@, b@), a@) == b@,
{
    assert(elem_sub_spec(elem_add_spec(a@, b@), a@) =~= b@);
}

/// Scaling by one changes nothing.
pub proof fn lemma_mul_one_identity<const N: usize>(a: Tensor<u64, N>)
    requires
        a.wf(),
    ensures
        scalar_mul_spec(a@, 1u64) == a@,
{
    assert(scalar_mul_spec(a@, 1u64) =~= a@);
}

/// Dividing by one changes nothing.
pub proof fn lemma_div_one_identity<const N: usize>(a: Tensor<u64, N>)
    requires
        a.wf(),
    ensures
        scalar_div_spec(a@, 1u64) == a@,
{
    assert(scalar_div_spec(a@, 1u64) =~= a@);
}

/// Round-trip law: dividing by a nonzero `k` and scaling back by `k` comes
/// back to within one `k` of the original, componentwise — the exact-integer
/// reading of a tolerance-bounded round trip.
pub proof fn lemma_div_mul_round_trip<const N: usize>(a: Tensor<u64, N>, k: u64)
    requires
        a.wf(),
        k >= 1,
    ensures
        forall|i: int|
            0 <= i < N ==> (#[trigger] scalar_mul_spec(scalar_div_spec(a@, k), k)[i]) <= a@[i],
        forall|i: int|
            0 <= i < N ==> a@[i] < (#[trigger] scalar_mul_spec(scalar_div_spec(a@, k), k)[i]) + k,
{
    assert forall|i: int| 0 <= i < N implies {
        &&& (#[trigger] scalar_mul_spec(scalar_div_spec(a@, k), k)[i]) <= a@[i]
        &&& a@[i] < scalar_mul_spec(scalar_div_spec(a@, k), k)[i] + k
    } by {
        lemma_remainder(a@[i] as int, k as int);
    }
}

/// Negation is an involution: negating twice gives back exactly `a`,
/// wherever every component has a representable negation.
pub proof fn lemma_neg_involutive<const N: usize>(a: Tensor<i64, N>)
    requires
        a.wf(),
        forall|i: int| 0 <= i < N ==> (#[trigger] a@[i]) != i64::MIN,
    ensures
        elem_neg_spec(elem_neg_spec(a@)) == a@,
{
    assert(elem_neg_spec(elem_neg_spec(a@)) =~= a@);
}

} // verus!
