use ninterp::error::{
    InterpolateError, OutOfBoundsAt, OutsideDomainAt, Transform, ValidateError, WrongLengthAt,
};
use ninterp::extrapolate::Extrapolate;
use ninterp::interp::Interp1D;
use ninterp::message::{fmt_values_index, point_at, show_index};
use ninterp::strategy::{Step, StepDirection, StepLower};

#[test]
fn single_point_out_of_bounds_reads_as_one_sentence() {
    let interp = Interp1D::new(vec![0, 1, 2], vec![3, 4, 5], StepLower, Extrapolate::Error).unwrap();
    let err = interp.interpolate(&[7]).unwrap_err();
    assert_eq!(err.message(), "point is out of bounds in dim 0 with `Extrapolate::Error` set");
}

#[test]
fn several_out_of_bounds_points_are_listed() {
    let interp = Interp1D::new(vec![0, 1, 2], vec![3, 4, 5], StepLower, Extrapolate::Error).unwrap();
    let err = interp.batch_interpolate(&[[1], [-1], [2], [5]]).unwrap_err();
    assert_eq!(
        err.message(),
        "points out of bounds with `Extrapolate::Error` set:\n    point[1] in dim 0\n    point[3] in dim 0"
    );
    let one_point_two_dims =
        InterpolateError::OutOfBounds(vec![OutOfBoundsAt::new(0, 0), OutOfBoundsAt::new(0, 1)]);
    assert_eq!(
        one_point_two_dims.message(),
        "point out of bounds with `Extrapolate::Error` set:\n    point in dim 0\n    point in dim 1"
    );
    let later_point = InterpolateError::OutOfBounds(vec![OutOfBoundsAt::new(4, 2)]);
    assert_eq!(
        later_point.message(),
        "point[4] is out of bounds in dim 2 with `Extrapolate::Error` set"
    );
}

#[test]
fn point_length_and_output_length_messages() {
    let single = InterpolateError::PointLength { expected: 0, failures: vec![WrongLengthAt::new(0, 2)] };
    assert_eq!(single.message(), "point has length 2, expected 0 for 0-D interpolation");
    let many = InterpolateError::PointLength {
        expected: 3,
        failures: vec![WrongLengthAt::new(0, 2), WrongLengthAt::new(5, 14)],
    };
    assert_eq!(
        many.message(),
        "points have the wrong length for 3-D interpolation:\n    point[0] has length 2\n    point[5] has length 14"
    );
    assert_eq!(
        InterpolateError::OutputLength { expected: 2, found: 1 }.message(),
        "output slice has length 1, expected 2"
    );
    assert_eq!(InterpolateError::Other(String::from("custom")).message(), "custom");
}

#[test]
fn outside_domain_messages() {
    let one = InterpolateError::GridTransformDomain(vec![OutsideDomainAt::new(0, 1, Transform::Log)]);
    assert_eq!(one.message(), "GridTransform: point is outside Log's domain in dim 1");
    let two = InterpolateError::GridTransformDomain(vec![
        OutsideDomainAt::new(2, 0, Transform::Reciprocal),
        OutsideDomainAt::new(3, 1, Transform::Log),
    ]);
    assert_eq!(
        two.message(),
        "GridTransform: points outside transform's domain:\n    point[2] in dim 0 (Reciprocal's domain)\n    point[3] in dim 1 (Log's domain)"
    );
}

#[test]
fn validate_error_messages() {
    let err = Interp1D::new(
        vec![0, 1, 2],
        vec![3, 4, 5],
        Step(vec![StepDirection::Lower; 3]),
        Extrapolate::Error,
    )
    .unwrap_err();
    assert_eq!(err.message(), "Step has 3 directions but interpolator is 1-D (expected 1)");
    assert_eq!(
        ValidateError::InsufficientGridPoints(0).message(),
        "at least 2 grid points are required per dimension: dim 0"
    );
    assert_eq!(
        ValidateError::NotStrictlyIncreasing(12).message(),
        "supplied coordinates must be strictly increasing: dim 12"
    );
    assert_eq!(
        ValidateError::NonUniform { dim: 0, index: 1 }.message(),
        "grid[0] is not uniformly spaced (spacing changes at index 1)"
    );
    assert_eq!(
        ValidateError::IncompatibleShapes(2).message(),
        "supplied grid and values are not compatible shapes: dim 2"
    );
    assert_eq!(
        ValidateError::GridAxisCount { expected: 3, found: 2 }.message(),
        "grid has 2 axes, expected 3 to match the values"
    );
    assert_eq!(
        ValidateError::ExtrapolateUnsupported.message(),
        "`Extrapolate::Enable` is not supported by this strategy"
    );
    assert_eq!(
        ValidateError::GridTransformDomain { transform: Transform::Log, dim: 1, index: 0 }.message(),
        "GridTransform: grid[1][0] is outside Log's domain"
    );
    assert_eq!(
        ValidateError::GridTransformNotMonotonic { transform: Transform::Reciprocal, dim: 0, index: 3 }
            .message(),
        "GridTransform: grid[0] is not monotonic under Reciprocal (direction changes at index 3)"
    );
    assert_eq!(
        ValidateError::ValuesTransformDomain { transform: Transform::Log, index: vec![6, 153, 2] }.message(),
        "ValuesTransform: values[6][153][2] is outside Log's domain"
    );
    assert_eq!(ValidateError::Other(String::from("bad config")).message(), "bad config");
}

#[test]
fn message_pieces() {
    assert_eq!(fmt_values_index(&[]), "");
    assert_eq!(fmt_values_index(&[0, 10, 1234567]), "[0][10][1234567]");
    assert_eq!(point_at(7, true), "point[7]");
    assert_eq!(point_at(7, false), "point");
    assert!(!show_index(&[0, 0]));
    assert!(show_index(&[0, 3]));
    assert!(!show_index(&[]));
}
