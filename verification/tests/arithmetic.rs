//! Elementwise arithmetic scenarios, over exact integers, floating-point
//! components, and heterogeneous unit-carrying components.

use tensors::scalar::Centimeters;
use tensors::scalar::Meters;
use tensors::NumRanks;
use tensors::Tensor;

fn close(x: f64, y: f64) -> bool {
    (x - y).abs() < 1e-9
}

#[test]
fn add_and_sub_integer_vectors() {
    let a: Tensor<i64, 3> = Tensor::new(vec![1, 2, 3]);
    let b: Tensor<i64, 3> = Tensor::new(vec![4, 5, 6]);

    let sum: Tensor<i64, 3> = a.elem_add(&b);
    assert_eq!(*sum.index(0), 5);
    assert_eq!(*sum.index(1), 7);
    assert_eq!(*sum.index(2), 9);

    let diff: Tensor<i64, 3> = a.elem_sub(&b);
    assert_eq!(*diff.index(0), -3);
    assert_eq!(*diff.index(1), -3);
    assert_eq!(*diff.index(2), -3);
}

#[test]
fn mul_then_div_round_trips_floats() {
    let a: Tensor<f64, 3> = Tensor::new(vec![1.0, 2.0, 3.0]);
    let doubled: Tensor<f64, 3> = a.scalar_mul(2.0);
    assert_eq!(*doubled.index(0), 2.0);
    assert_eq!(*doubled.index(1), 4.0);
    assert_eq!(*doubled.index(2), 6.0);

    let halved: Tensor<f64, 3> = doubled.scalar_div(2.0);
    assert_eq!(*halved.index(0), 1.0);
    assert_eq!(*halved.index(1), 2.0);
    assert_eq!(*halved.index(2), 3.0);
}

#[test]
fn negation_of_float_vector() {
    let a: Tensor<f64, 3> = Tensor::new(vec![1.0, 2.0, 3.0]);
    let n: Tensor<f64, 3> = a.negated();
    assert_eq!(*n.index(0), -1.0);
    assert_eq!(*n.index(1), -2.0);
    assert_eq!(*n.index(2), -3.0);
}

#[test]
fn add_sub_inverse_within_tolerance() {
    let a: Tensor<f64, 4> = Tensor::new(vec![0.1, 2.7, -3.9, 1e6]);
    let b: Tensor<f64, 4> = Tensor::new(vec![7.3, -0.02, 55.5, -1e-3]);
    let sum: Tensor<f64, 4> = a.elem_add(&b);
    let back: Tensor<f64, 4> = sum.elem_sub(&a);
    for i in 0..4 {
        assert!(close(*back.index(i), *b.index(i)));
    }
}

#[test]
fn mul_div_by_one_and_round_trip() {
    let a: Tensor<f64, 3> = Tensor::new(vec![0.5, -2.25, 9.75]);
    let m: Tensor<f64, 3> = a.scalar_mul(1.0);
    let d: Tensor<f64, 3> = a.scalar_div(1.0);
    for i in 0..3 {
        assert_eq!(*m.index(i), *a.index(i));
        assert_eq!(*d.index(i), *a.index(i));
    }

    let k = 3.0;
    let round: Tensor<f64, 3> = a.scalar_div(k).scalar_mul(k);
    for i in 0..3 {
        assert!(close(*round.index(i), *a.index(i)));
    }

    let u: Tensor<u64, 3> = Tensor::new(vec![7, 9, 23]);
    let q: Tensor<u64, 3> = u.scalar_div(4);
    let r: Tensor<u64, 3> = q.scalar_mul(4);
    for i in 0..3 {
        assert!(*r.index(i) <= *u.index(i));
        assert!(*u.index(i) < *r.index(i) + 4);
    }
}

#[test]
fn add_sub_inverse_is_exact_for_integers() {
    let a: Tensor<i64, 3> = Tensor::new(vec![10, -20, 30]);
    let b: Tensor<i64, 3> = Tensor::new(vec![7, 8, -9]);
    let sum: Tensor<i64, 3> = a.elem_add(&b);
    let back: Tensor<i64, 3> = sum.elem_sub(&a);
    for i in 0..3 {
        assert_eq!(*back.index(i), *b.index(i));
    }
}

#[test]
fn negation_is_involutive() {
    let a: Tensor<f64, 3> = Tensor::new(vec![0.25, -17.5, 3.125]);
    let nn: Tensor<f64, 3> = a.negated().negated();
    for i in 0..3 {
        assert_eq!(*nn.index(i), *a.index(i));
    }

    let b: Tensor<i64, 3> = Tensor::new(vec![5, -6, 7]);
    let bb: Tensor<i64, 3> = b.negated().negated();
    for i in 0..3 {
        assert_eq!(*bb.index(i), *b.index(i));
    }
}

#[test]
fn default_tensor_is_all_defaults() {
    let z: Tensor<i64, 4> = Tensor::default();
    for i in 0..4 {
        assert_eq!(*z.index(i), 0);
    }

    let m: Tensor<Meters, 2> = Tensor::default();
    for i in 0..2 {
        assert_eq!(*m.index(i), Meters(0));
    }
}

#[test]
fn heterogeneous_units_convert_in_the_components() {
    let meters: Tensor<Meters, 3> = Tensor::new(vec![Meters(1), Meters(2), Meters(3)]);
    let centimeters: Tensor<Centimeters, 3> =
        Tensor::new(vec![Centimeters(5), Centimeters(5), Centimeters(5)]);

    let total: Tensor<Centimeters, 3> = meters.elem_add(&centimeters);
    assert_eq!(*total.index(0), Centimeters(105));
    assert_eq!(*total.index(1), Centimeters(205));
    assert_eq!(*total.index(2), Centimeters(305));

    let swapped: Tensor<Centimeters, 3> = centimeters.elem_add(&meters);
    assert_eq!(*swapped.index(0), Centimeters(105));
    assert_eq!(*swapped.index(1), Centimeters(205));
    assert_eq!(*swapped.index(2), Centimeters(305));
}

#[test]
fn tensor_shape_and_permutation_metadata() {
    let a: Tensor<i64, 3> = Tensor::new(vec![1, 2, 3]);
    let shape = a.shape();
    assert_eq!(shape.rank(), 1);
    assert_eq!(shape.dim(0), 3);
    let p = a.permutation();
    assert_eq!(p.num_ranks(), 1);
    assert_eq!(a.num_ranks(), 1);
}
