use vstd::prelude::*;

verus! {

/// The kinds of failure that shape arithmetic can report.
#[derive(Copy, Clone, Debug, PartialEq, Eq, Structural)]
pub enum ErrorKind {
    /// incompatible shape
    IncompatibleShape,
    /// incompatible memory layout
    IncompatibleLayout,
    /// the shape does not fit inside type limits
    RangeLimited,
    /// out of bounds indexing
    OutOfBounds,
    /// aliasing array elements
    Unsupported,
    /// reserved; no operation reports it
    __Incomplete,
}

/// An error raised by a checked shape computation.
#[derive(Copy, Clone, Debug, PartialEq, Eq, Structural)]
pub struct ShapeError {
    repr: ErrorKind,
}

impl ShapeError {
    pub closed spec fn spec_kind(&self) -> ErrorKind {
        self.repr
    }

    /// Return the `ErrorKind` of this error.
    pub fn kind(&self) -> (r: ErrorKind)
        ensures
            r == self.spec_kind(),
    {
        self.repr
    }

    /// Create a new `ShapeError`.
    pub fn from_kind(error: ErrorKind) -> (r: Self)
        ensures
            r.spec_kind() == error,
    {
        from_kind(error)
    }

    /// A short message that describes this error's kind.
    pub fn description(&self) -> (r: &'static str)
        ensures
            r@ == description_of(self.spec_kind()),
    {
        match self.kind() {
            ErrorKind::IncompatibleShape => "incompatible shapes",
            ErrorKind::IncompatibleLayout => "incompatible memory layout",
            ErrorKind::RangeLimited => "the shape does not fit in type limits",
            ErrorKind::OutOfBounds => "out of bounds indexing",
            ErrorKind::Unsupported => "unsupported operation",
            ErrorKind::__Incomplete => "this error variant is not in use",
        }
    }
}

/// The message that describes an error of kind `k`.
pub open spec fn description_of(k: ErrorKind) -> Seq<char> {
    match k {
        ErrorKind::IncompatibleShape => "incompatible shapes"@,
        ErrorKind::IncompatibleLayout => "incompatible memory layout"@,
        ErrorKind::RangeLimited => "the shape does not fit in type limits"@,
        ErrorKind::OutOfBounds => "out of bounds indexing"@,
        ErrorKind::Unsupported => "unsupported operation"@,
        ErrorKind::__Incomplete => "this error variant is not in use"@,
    }
}

/// Create a `ShapeError` of the given kind.
pub fn from_kind(k: ErrorKind) -> (r: ShapeError)
    ensures
        r.spec_kind() == k,
{
    ShapeError { repr: k }
}

/// Product of the extents of `s` that are not zero (1 for an empty shape).
pub open spec fn nonzero_product(s: Seq<usize>) -> int
    decreases s.len(),
{
    if s.len() == 0 {
        1
    } else if s.last() == 0 {
        nonzero_product(s.drop_last())
    } else {
        nonzero_product(s.drop_last()) * s.last()
    }
}

/// Number of elements of an array of shape `s`: the product of all its extents.
pub open spec fn shape_size(s: Seq<usize>) -> int
    decreases s.len(),
{
    if s.len() == 0 {
        1
    } else {
        shape_size(s.drop_last()) * s.last()
    }
}

/// A shape is accepted when the product of its non-zero extents fits in `isize`.
pub open spec fn shape_fits(s: Seq<usize>) -> bool {
    nonzero_product(s) <= isize::MAX
}

proof fn lemma_nonzero_product_positive(s: Seq<usize>)
    ensures
        nonzero_product(s) >= 1,
    decreases s.len(),
{
    if s.len() > 0 {
        lemma_nonzero_product_positive(s.drop_last());
        let p = nonzero_product(s.drop_last());
        let d = s.last() as int;
        if d != 0 {
            assert(p * d >= 1) by (nonlinear_arith)
                requires
                    p >= 1,
                    d >= 1,
            {
            }
        }
    }
}

/// Extending a shape never lowers the product of its non-zero extents.
proof fn lemma_nonzero_product_prefix(s: Seq<usize>, j: int)
    requires
        0 <= j <= s.len(),
    ensures
        nonzero_product(s.subrange(0, j)) <= nonzero_product(s),
    decreases s.len(),
{
    if j < s.len() {
        let t = s.drop_last();
        assert(s.subrange(0, j) =~= t.subrange(0, j));
        lemma_nonzero_product_prefix(t, j);
        lemma_nonzero_product_positive(t);
        let p = nonzero_product(t);
        let d = s.last() as int;
        if d != 0 {
            assert(p <= p * d) by (nonlinear_arith)
                requires
                    p >= 1,
                    d >= 1,
            {
            }
        }
    } else {
        assert(s.subrange(0, j) =~= s);
    }
}

/// The size is the product of the non-zero extents, or 0 where an extent is 0.
proof fn lemma_shape_size(s: Seq<usize>)
    ensures
        (exists|i: int| 0 <= i < s.len() && s[i] == 0) ==> shape_size(s) == 0,
        (forall|i: int| 0 <= i < s.len() ==> s[i] != 0) ==> shape_size(s) == nonzero_product(s),
    decreases s.len(),
{
    if s.len() > 0 {
        let t = s.drop_last();
        lemma_shape_size(t);
        if exists|i: int| 0 <= i < s.len() && s[i] == 0 {
            let i = choose|i: int| 0 <= i < s.len() && s[i] == 0;
            if i < t.len() {
                assert(t[i] == 0);
            }
        }
        if forall|i: int| 0 <= i < s.len() ==> s[i] != 0 {
            assert forall|i: int| 0 <= i < t.len() implies t[i] != 0 by {
                assert(t[i] == s[i]);
            }
        }
    }
}

/// Compute the number of elements of an array of shape `dim`, checking that the
/// product of its non-zero extents neither overflows `usize` nor exceeds `isize::MAX`.
pub fn size_of_shape_checked(dim: &[usize]) -> (r: Result<usize, ShapeError>)
    ensures
        match r {
            Ok(n) => shape_fits(dim@) && n == shape_size(dim@),
            Err(e) => !shape_fits(dim@) && e.spec_kind() == ErrorKind::OutOfBounds,
        },
{
    let mut size_nonzero: usize = 1;
    let mut has_zero = false;
    let mut i: usize = 0;
    while i < dim.len()
        invariant
            i <= dim@.len(),
            size_nonzero == nonzero_product(dim@.subrange(0, i as int)),
            has_zero <==> exists|j: int| 0 <= j < i && dim@[j] == 0,
        decreases dim@.len() - i,
    {
        let d = dim[i];
        let ghost prefix = dim@.subrange(0, i as int);
        assert(dim@.subrange(0, i + 1).drop_last() =~= prefix);
        if d == 0 {
            has_zero = true;
        } else {
            match size_nonzero.checked_mul(d) {
                Some(p) => {
                    size_nonzero = p;
                },
                None => {
                    proof {
                        lemma_nonzero_product_prefix(dim@, i + 1);
                    }
                    return Err(from_kind(ErrorKind::OutOfBounds));
                },
            }
        }
        i = i + 1;
    }
    assert(dim@.subrange(0, dim@.len() as int) =~= dim@);
    if size_nonzero > isize::MAX as usize {
        Err(from_kind(ErrorKind::OutOfBounds))
    } else {
        proof {
            lemma_shape_size(dim@);
        }
        if has_zero {
            Ok(0)
        } else {
            Ok(size_nonzero)
        }
    }
}

} // verus!
