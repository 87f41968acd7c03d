use tensornet::shape::{from_kind, size_of_shape_checked, ErrorKind, ShapeError};

#[test]
fn size_of_regular_shape_is_product() {
    assert_eq!(size_of_shape_checked(&[2, 3, 4]), Ok(24));
    assert_eq!(size_of_shape_checked(&[784]), Ok(784));
}

#[test]
fn size_of_empty_shape_is_one() {
    assert_eq!(size_of_shape_checked(&[]), Ok(1));
}

#[test]
fn size_with_zero_extent_is_zero() {
    assert_eq!(size_of_shape_checked(&[5, 0, 7]), Ok(0));
    assert_eq!(size_of_shape_checked(&[0]), Ok(0));
}

#[test]
fn size_ignores_zero_extents_when_checking_limits() {
    let big = isize::MAX as usize;
    assert_eq!(size_of_shape_checked(&[big, 0]), Ok(0));
    assert_eq!(size_of_shape_checked(&[big, 1]), Ok(big));
}

#[test]
fn size_over_isize_max_is_out_of_bounds() {
    let big = isize::MAX as usize;
    let e = size_of_shape_checked(&[big + 1]).unwrap_err();
    assert_eq!(e.kind(), ErrorKind::OutOfBounds);
    let e = size_of_shape_checked(&[big, 2]).unwrap_err();
    assert_eq!(e.kind(), ErrorKind::OutOfBounds);
}

#[test]
fn size_overflowing_usize_is_out_of_bounds() {
    let e = size_of_shape_checked(&[usize::MAX, usize::MAX, 0]).unwrap_err();
    assert_eq!(e.kind(), ErrorKind::OutOfBounds);
    let e = size_of_shape_checked(&[1 << 40, 1 << 40]).unwrap_err();
    assert_eq!(e.kind(), ErrorKind::OutOfBounds);
}

#[test]
fn error_keeps_its_kind() {
    let kinds = [
        ErrorKind::IncompatibleShape,
        ErrorKind::IncompatibleLayout,
        ErrorKind::RangeLimited,
        ErrorKind::OutOfBounds,
        ErrorKind::Unsupported,
    ];
    for k in kinds {
        assert_eq!(from_kind(k).kind(), k);
        assert_eq!(ShapeError::from_kind(k).kind(), k);
        assert_eq!(ShapeError::from_kind(k), from_kind(k));
    }
}

#[test]
fn error_descriptions() {
    assert_eq!(from_kind(ErrorKind::IncompatibleShape).description(), "incompatible shapes");
    assert_eq!(
        from_kind(ErrorKind::IncompatibleLayout).description(),
        "incompatible memory layout"
    );
    assert_eq!(
        from_kind(ErrorKind::RangeLimited).description(),
        "the shape does not fit in type limits"
    );
    assert_eq!(from_kind(ErrorKind::OutOfBounds).description(), "out of bounds indexing");
    assert_eq!(from_kind(ErrorKind::Unsupported).description(), "unsupported operation");
    assert_eq!(
        from_kind(ErrorKind::__Incomplete).description(),
        "this error variant is not in use"
    );
}
