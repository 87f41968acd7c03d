use vstd::prelude::*;

verus! {

/// Which product `dot` computes, chosen by the ranks of its two operands.
#[derive(Copy, Clone, Debug, PartialEq, Eq, Structural)]
pub enum DotForm {
    /// vector times vector: the inner product, as a tensor of one element
    Inner,
    /// vector times matrix: a vector
    VectorMatrix,
    /// matrix times vector: a vector
    MatrixVector,
    /// matrix times matrix: a matrix
    MatrixMatrix,
}

/// Why two operands have no product.
#[derive(Copy, Clone, Debug, PartialEq, Eq, Structural)]
pub enum DotError {
    /// the left operand is neither a vector nor a matrix
    LeftRank,
    /// the right operand is neither a vector nor a matrix
    RightRank,
    /// the left operand's last extent differs from the right operand's first
    InnerMismatch,
}

/// Only vectors (rank 1) and matrices (rank 2) take part in a product.
pub open spec fn is_operand_rank(n: nat) -> bool {
    n == 1 || n == 2
}

/// The outcome of `dot_form` on operands of shapes `x` and `y`.
pub open spec fn dot_form_of(x: Seq<usize>, y: Seq<usize>) -> Result<DotForm, DotError> {
    if !is_operand_rank(x.len()) {
        Err(DotError::LeftRank)
    } else if !is_operand_rank(y.len()) {
        Err(DotError::RightRank)
    } else if x.last() != y[0] {
        Err(DotError::InnerMismatch)
    } else if x.len() == 1 && y.len() == 1 {
        Ok(DotForm::Inner)
    } else if x.len() == 1 {
        Ok(DotForm::VectorMatrix)
    } else if y.len() == 1 {
        Ok(DotForm::MatrixVector)
    } else {
        Ok(DotForm::MatrixMatrix)
    }
}

/// The shape of the product of operands of shapes `x` and `y`, where they have one.
pub open spec fn dot_shape_of(x: Seq<usize>, y: Seq<usize>) -> Seq<usize> {
    match dot_form_of(x, y) {
        Ok(DotForm::Inner) => seq![1usize],
        Ok(DotForm::VectorMatrix) => seq![y[1]],
        Ok(DotForm::MatrixVector) => seq![x[0]],
        Ok(DotForm::MatrixMatrix) => seq![x[0], y[1]],
        Err(_) => Seq::empty(),
    }
}

/// Choose the product of a tensor of shape `x` with one of shape `y`: inner
/// product, vector-matrix, matrix-vector or matrix-matrix, by the two ranks.
/// Fails on a rank other than 1 or 2 (the left operand is checked first), and
/// where the contracted extents differ.
pub fn dot_form(x: &[usize], y: &[usize]) -> (r: Result<DotForm, DotError>)
    ensures
        r == dot_form_of(x@, y@),
{
    let dx = x.len();
    let dy = y.len();
    if dx != 1 && dx != 2 {
        Err(DotError::LeftRank)
    } else if dy != 1 && dy != 2 {
        Err(DotError::RightRank)
    } else if x[dx - 1] != y[0] {
        Err(DotError::InnerMismatch)
    } else if dx == 1 {
        if dy == 1 {
            Ok(DotForm::Inner)
        } else {
            Ok(DotForm::VectorMatrix)
        }
    } else if dy == 1 {
        Ok(DotForm::MatrixVector)
    } else {
        Ok(DotForm::MatrixMatrix)
    }
}

/// The shape of `dot` of operands of shapes `x` and `y`.
pub fn dot_shape(x: &[usize], y: &[usize]) -> (r: Vec<usize>)
    requires
        dot_form_of(x@, y@) is Ok,
    ensures
        r@ == dot_shape_of(x@, y@),
{
    match dot_form(x, y) {
        Ok(DotForm::Inner) => vec![1usize],
        Ok(DotForm::VectorMatrix) => vec![y[1]],
        Ok(DotForm::MatrixVector) => vec![x[0]],
        Ok(DotForm::MatrixMatrix) => vec![x[0], y[1]],
        Err(_) => Vec::new(),
    }
}

/// The shape that `sum_axis` gives to the sum of a tensor of shape `s` along
/// `axis`: the axis is dropped, and put back with extent 1 only where
/// `keep_dim` is asked for and the axis is not the batch axis 0.
pub open spec fn sum_axis_shape_of(s: Seq<usize>, axis: nat, keep_dim: bool) -> Seq<usize> {
    if keep_dim && axis != 0 {
        s.update(axis as int, 1usize)
    } else {
        s.remove(axis as int)
    }
}

/// Summing a matrix along the batch axis 0 drops that axis even where
/// `keep_dim` is asked for, while summing it along axis 1 with `keep_dim` keeps
/// that axis with extent 1.
pub proof fn keep_dim_spares_only_non_batch_axes(s: Seq<usize>)
    requires
        s.len() == 2,
    ensures
        sum_axis_shape_of(s, 0, true) == seq![s[1]],
        sum_axis_shape_of(s, 1, true) == seq![s[0], 1usize],
        sum_axis_shape_of(s, 0, true) == sum_axis_shape_of(s, 0, false),
        sum_axis_shape_of(s, 1, false) == seq![s[0]],
{
    assert(sum_axis_shape_of(s, 0, true) =~= seq![s[1]]);
    assert(sum_axis_shape_of(s, 1, true) =~= seq![s[0], 1usize]);
    assert(sum_axis_shape_of(s, 1, false) =~= seq![s[0]]);
}

/// Compute the shape of the sum of a tensor of shape `shape` along `axis`.
pub fn sum_axis_shape(shape: &[usize], axis: usize, keep_dim: bool) -> (r: Vec<usize>)
    requires
        axis < shape@.len(),
    ensures
        r@ == sum_axis_shape_of(shape@, axis as nat, keep_dim),
{
    let ghost kept = keep_dim && axis != 0;
    let mut r: Vec<usize> = Vec::new();
    let mut i: usize = 0;
    while i < shape.len()
        invariant
            axis < shape@.len(),
            kept == (keep_dim && axis != 0),
            i <= shape@.len(),
            i <= axis ==> r@ == shape@.subrange(0, i as int),
            i > axis && kept ==> r@ == shape@.subrange(0, i as int).update(axis as int, 1usize),
            i > axis && !kept ==> r@ == shape@.subrange(0, axis as int) + shape@.subrange(
                axis + 1,
                i as int,
            ),
        decreases shape@.len() - i,
    {
        if i != axis {
            r.push(shape[i]);
        } else if keep_dim && axis != 0 {
            r.push(1usize);
        }
        i = i + 1;
        proof {
            if i <= axis {
                assert(r@ =~= shape@.subrange(0, i as int));
            } else if kept {
                assert(r@ =~= shape@.subrange(0, i as int).update(axis as int, 1usize));
            } else {
                assert(r@ =~= shape@.subrange(0, axis as int) + shape@.subrange(axis + 1, i as int));
            }
        }
    }
    assert(shape@.subrange(0, shape@.len() as int) =~= shape@);
    r
}

} // verus!
