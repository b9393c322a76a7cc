use ninterp::error::{InterpolateError, OutOfBoundsAt, ValidateError, WrongLengthAt};
use ninterp::extrapolate::Extrapolate;
use ninterp::interp::{Interp0D, Interp1D, Interp2D};
use ninterp::interpolator::Interpolator;
use ninterp::strategy::{Nearest, StepLower};

fn lower_1d() -> Interp1D<f64, StepLower> {
    Interp1D::new(
        vec![0., 1., 2., 3., 4.],
        vec![0.2, 0.4, 0.6, 0.8, 1.0],
        StepLower,
        Extrapolate::Error,
    )
    .unwrap()
}

#[test]
fn slice_point_of_the_right_length_is_interpolated() {
    let interp = lower_1d();
    assert_eq!(Interpolator::ndim(&interp), 1);
    assert_eq!(Interpolator::validate(&interp), Ok(()));
    assert_eq!(Interpolator::interpolate(&interp, &[3.5][..]), Ok(0.8));
    assert_eq!(Interpolator::interpolate_fast(&interp, &[1.5][..]), 0.4);
}

#[test]
fn slice_point_of_another_length_is_refused() {
    let interp = lower_1d();
    assert_eq!(
        Interpolator::interpolate(&interp, &[1.0, 2.0][..]),
        Err(InterpolateError::PointLength { expected: 1, failures: vec![WrongLengthAt::new(0, 2)] })
    );
    assert_eq!(
        Interpolator::interpolate(&interp, &[][..]),
        Err(InterpolateError::PointLength { expected: 1, failures: vec![WrongLengthAt::new(0, 0)] })
    );
}

#[test]
fn batch_lists_every_point_of_the_wrong_length() {
    let interp = lower_1d();
    let points: Vec<&[f64]> = vec![&[1.0], &[1.0, 2.0], &[], &[2.0]];
    let expected = InterpolateError::PointLength {
        expected: 1,
        failures: vec![WrongLengthAt::new(1, 2), WrongLengthAt::new(2, 0)],
    };
    assert_eq!(Interpolator::batch_interpolate(&interp, &points), Err(expected.clone()));
    let mut out = vec![9.0; 4];
    assert_eq!(Interpolator::batch_interpolate_into(&interp, &points, &mut out), Err(expected));
    assert_eq!(out, vec![9.0; 4]);
}

#[test]
fn batch_of_slices_matches_single_points() {
    let interp = lower_1d();
    let points: Vec<&[f64]> = vec![&[0.5], &[3.5], &[4.0]];
    assert_eq!(Interpolator::batch_interpolate(&interp, &points), Ok(vec![0.2, 0.8, 1.0]));
    let mut out = vec![0.0; 3];
    assert_eq!(Interpolator::batch_interpolate_into(&interp, &points, &mut out), Ok(()));
    assert_eq!(out, vec![0.2, 0.8, 1.0]);
    assert_eq!(Interpolator::batch_interpolate_fast(&interp, &points), vec![0.2, 0.8, 1.0]);
    let mut fast = vec![0.0; 3];
    Interpolator::batch_interpolate_fast_into(&interp, &points, &mut fast);
    assert_eq!(fast, vec![0.2, 0.8, 1.0]);
}

#[test]
fn batch_output_of_the_wrong_length_is_refused() {
    let interp = lower_1d();
    let points: Vec<&[f64]> = vec![&[0.5], &[3.5]];
    let mut out = vec![0.0; 3];
    assert_eq!(
        Interpolator::batch_interpolate_into(&interp, &points, &mut out),
        Err(InterpolateError::OutputLength { expected: 2, found: 3 })
    );
    assert_eq!(out, vec![0.0; 3]);
}

#[test]
fn batch_of_slices_reports_points_beyond_the_grid() {
    let interp = lower_1d();
    let points: Vec<&[f64]> = vec![&[0.5], &[5.0], &[-1.0]];
    assert_eq!(
        Interpolator::batch_interpolate(&interp, &points),
        Err(InterpolateError::OutOfBounds(vec![OutOfBoundsAt::new(1, 0), OutOfBoundsAt::new(2, 0)]))
    );
}

#[test]
fn set_extrapolate_through_the_interface() {
    let mut interp = lower_1d();
    assert_eq!(Interpolator::set_extrapolate(&mut interp, Extrapolate::Clamp), Ok(()));
    assert_eq!(Interpolator::interpolate(&interp, &[7.0][..]), Ok(1.0));
    assert_eq!(
        Interpolator::set_extrapolate(&mut interp, Extrapolate::Enable),
        Err(ValidateError::ExtrapolateUnsupported)
    );
    assert_eq!(interp.extrapolate, Extrapolate::Clamp);
}

#[test]
fn two_dimensional_slices() {
    let interp = Interp2D::new(
        vec![0, 10],
        vec![0, 10, 20],
        vec![vec![1, 2, 3], vec![4, 5, 6]],
        Nearest,
        Extrapolate::Error,
    )
    .unwrap();
    assert_eq!(Interpolator::ndim(&interp), 2);
    assert_eq!(Interpolator::interpolate(&interp, &[6, 14][..]), Ok(5));
    assert_eq!(
        Interpolator::interpolate(&interp, &[6][..]),
        Err(InterpolateError::PointLength { expected: 2, failures: vec![WrongLengthAt::new(0, 1)] })
    );
}

#[test]
fn constant_batch_stops_at_the_first_non_empty_point() {
    let interp = Interp0D::new(4);
    let empty: &[i32] = &[];
    let points: Vec<&[i32]> = vec![empty, empty];
    assert_eq!(Interpolator::batch_interpolate(&interp, &points), Ok(vec![4, 4]));
    let bad: Vec<&[i32]> = vec![empty, &[1, 2, 3], &[5]];
    assert_eq!(
        Interpolator::batch_interpolate(&interp, &bad),
        Err(InterpolateError::PointLength { expected: 0, failures: vec![WrongLengthAt::new(0, 3)] })
    );
    let mut out = vec![0; 3];
    assert_eq!(
        Interpolator::batch_interpolate_into(&interp, &bad, &mut out),
        Err(InterpolateError::PointLength { expected: 0, failures: vec![WrongLengthAt::new(0, 3)] })
    );
    assert_eq!(out, vec![4, 0, 0]);
    let mut short = vec![0; 2];
    assert_eq!(
        Interpolator::batch_interpolate_into(&interp, &bad, &mut short),
        Err(InterpolateError::OutputLength { expected: 3, found: 2 })
    );
    assert_eq!(Interpolator::batch_interpolate_fast(&interp, &points), vec![4, 4]);
}
