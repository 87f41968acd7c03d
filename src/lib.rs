//! Shape bookkeeping for a small feed-forward network engine: checked shape
//! sizes with their error taxonomy, the rank dispatch of the tensor product,
//! and the result shape of an axis-wise sum.

pub mod shape;
pub mod tensor;
