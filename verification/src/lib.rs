//! Statically-shaped tensors for unit-carrying numeric computation.
//!
//! A tensor's shape (its per-rank dimension lengths) is validated once and
//! then fixed; rank counting, identity permutation metadata, and elementwise
//! arithmetic over possibly heterogeneous component types are built on top.

pub mod laws;
pub mod permutation;
pub mod rank;
pub mod scalar;
pub mod shape;
pub mod storage;
pub mod tensor;

pub use permutation::PermutationDescriptor;
pub use rank::NumRanks;
pub use shape::Shape;
pub use shape::ShapeError;
pub use tensor::Tensor;
