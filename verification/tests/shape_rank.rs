//! Shape encoding, rank counting and permutation metadata.

use tensors::NumRanks;
use tensors::PermutationDescriptor;
use tensors::Shape;
use tensors::ShapeError;
use tensors::storage::encode_storage;
use tensors::storage::Ranks;

#[test]
fn test_create_ranks_t() {
    let shape = Shape::encode(vec![10, 3 * 7]).unwrap();
    let x: Ranks<i32> = encode_storage(&shape);
    match &x {
        Ranks::Axis(children) => {
            assert_eq!(children.len(), 10);
            match &children[0] {
                Ranks::Axis(inner) => {
                    let len = inner.len();
                    assert_eq!(len, 21);
                }
                Ranks::Component(_) => panic!("expected a nested axis"),
            }
        }
        Ranks::Component(_) => panic!("expected an axis"),
    }
}

#[test]
fn test_num_ranks() {
    let number_of_ranks1 = Shape::encode(vec![44, 3]).unwrap().num_ranks();
    let number_of_ranks2 = Shape::encode(vec![10, 3 * 7, 290, 1, 1, 44, 3]).unwrap().num_ranks();

    assert_eq!(number_of_ranks1, 2);
    assert_eq!(number_of_ranks2, 7);
}

#[test]
fn test_tensor_fields() {
    let shape = Shape::encode(vec![10, 3, 290, 1, 1, 44, 3]).unwrap();
    assert_eq!(shape.rank(), 7);
    assert_eq!(shape.dim(0), 10);
    assert_eq!(shape.dim(2), 290);
    assert_eq!(shape.dim(5), 44);
    let permutation = PermutationDescriptor::build(&shape);
    assert_eq!(permutation.num_ranks(), 7);
}

#[test]
fn test_default_permutation() {
    let shape = Shape::encode(vec![10, 3, 290, 1, 1, 44, 3]).unwrap();
    let p = PermutationDescriptor::build(&shape);
    assert_eq!(p.num_ranks(), 7);
    for i in 0..7 {
        assert_eq!(p.slot(i), i);
    }
}

#[test]
fn test_tensor_meta() {
    let shape = Shape::encode(vec![10, 3, 290, 1, 1, 44, 3]).unwrap();
    let permutation = PermutationDescriptor::build(&shape);
    let storage: Ranks<i64> = encode_storage(&shape);
    assert_eq!(shape.num_ranks(), 7);
    assert_eq!(permutation.num_ranks(), 7);
    assert_eq!(storage.num_ranks(), 7);
}

#[test]
fn shape_encoder_rank_counter_agree() {
    let shape = Shape::encode(vec![10, 3, 7]).unwrap();
    let storage: Ranks<i64> = encode_storage(&shape);
    assert_eq!(storage.num_ranks(), 3);

    let single = Shape::encode(vec![5]).unwrap();
    let storage_single: Ranks<i64> = encode_storage(&single);
    assert_eq!(storage_single.num_ranks(), 1);
}

#[test]
fn empty_dimension_list_is_rejected() {
    assert_eq!(Shape::encode(vec![]), Err(ShapeError::EmptyDimensionList));
}

#[test]
fn zero_dimension_is_rejected() {
    assert_eq!(Shape::encode(vec![3, 0, 2]), Err(ShapeError::ZeroDimension));
    assert_eq!(Shape::encode(vec![0]), Err(ShapeError::ZeroDimension));
}

#[test]
fn single_length_list_builds_rank_one_descriptor() {
    let shape = Shape::encode(vec![5]).unwrap();
    let p = PermutationDescriptor::build(&shape);
    assert_eq!(p.num_ranks(), 1);
    assert_eq!(p.slot(0), 0);
}

#[test]
fn default_storage_is_all_default_components() {
    let shape = Shape::encode(vec![2, 3]).unwrap();
    let storage: Ranks<i64> = encode_storage(&shape);
    match &storage {
        Ranks::Axis(rows) => {
            assert_eq!(rows.len(), 2);
            for row in rows {
                match row {
                    Ranks::Axis(cells) => {
                        assert_eq!(cells.len(), 3);
                        for cell in cells {
                            match cell {
                                Ranks::Component(c) => assert_eq!(*c, 0),
                                Ranks::Axis(_) => panic!("expected a component"),
                            }
                        }
                    }
                    Ranks::Component(_) => panic!("expected an axis"),
                }
            }
        }
        Ranks::Component(_) => panic!("expected an axis"),
    }
}
