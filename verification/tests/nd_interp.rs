use ninterp::data_nd::ValuesND;
use ninterp::error::{InterpolateError, OutOfBoundsAt, ValidateError, WrongLengthAt};
use ninterp::extrapolate::Extrapolate;
use ninterp::interp_nd::InterpND;
use ninterp::interpolator::Interpolator;
use ninterp::strategy::{Nearest, Step, StepDirection, StepLower, StepUpper};

fn cube_values() -> ValuesND<f64> {
    ValuesND::from_shape_vec(vec![2, 2, 2], vec![0., 1., 2., 3., 4., 5., 6., 7.]).unwrap()
}

fn unit_grid() -> Vec<Vec<f64>> {
    vec![vec![0., 1.], vec![0., 1.], vec![0., 1.]]
}

fn square_values() -> ValuesND<i32> {
    ValuesND::from_shape_vec(vec![2, 2], vec![0, 1, 2, 3]).unwrap()
}

#[test]
fn test_integer_nearest_with_clamp() {
    let interp = InterpND::new(vec![vec![0, 10], vec![0, 10]], square_values(), Nearest, Extrapolate::Clamp).unwrap();
    // In-bounds nearest still works on integer coordinates.
    assert_eq!(interp.interpolate(&[8, 3]).unwrap(), 2);
    // Out-of-bounds point is clamped to [0, 10], selecting the top-left row/right column.
    assert_eq!(interp.interpolate(&[-3, 12]).unwrap(), 1);
}

#[test]
fn nd_step_directions() {
    let interp =
        InterpND::new(unit_grid(), cube_values(), Step::from(StepDirection::Lower), Extrapolate::Error).unwrap();
    // At grid points: exact value
    for i in 0..2 {
        for j in 0..2 {
            for k in 0..2 {
                let point = [interp.data.grid[0][i], interp.data.grid[1][j], interp.data.grid[2][k]];
                assert_eq!(interp.interpolate(&point).unwrap(), interp.data.values.elems()[i * 4 + j * 2 + k]);
            }
        }
    }
    // Between points: floor each dimension to index 0
    assert_eq!(interp.interpolate(&[0.3, 0.7, 0.6]).unwrap(), 0.);
    assert_eq!(interp.interpolate(&[0.9, 0.9, 0.9]).unwrap(), 0.);

    let interp_lower = InterpND::new(unit_grid(), cube_values(), StepLower, Extrapolate::Error).unwrap();
    assert_eq!(interp_lower.interpolate(&[0.3, 0.7, 0.6]).unwrap(), 0.);

    let interp_upper =
        InterpND::new(unit_grid(), cube_values(), Step::from(StepDirection::Upper), Extrapolate::Error).unwrap();
    assert_eq!(interp_upper.interpolate(&[0.3, 0.7, 0.6]).unwrap(), 7.);

    let interp_marker_upper = InterpND::new(unit_grid(), cube_values(), StepUpper, Extrapolate::Error).unwrap();
    assert_eq!(interp_marker_upper.interpolate(&[0.3, 0.7, 0.6]).unwrap(), 7.);

    // Per-dimension: Lower in x, Upper in y, Lower in z
    let interp_mixed = InterpND::new(
        unit_grid(),
        cube_values(),
        Step(vec![StepDirection::Lower, StepDirection::Upper, StepDirection::Lower]),
        Extrapolate::Error,
    )
    .unwrap();
    assert_eq!(interp_mixed.interpolate(&[0.6, 0.4, 0.8]).unwrap(), 2.);

    // Invalid: direction count mismatch
    assert_eq!(
        InterpND::new(
            unit_grid(),
            cube_values(),
            Step(vec![StepDirection::Lower, StepDirection::Lower]),
            Extrapolate::Error,
        )
        .unwrap_err(),
        ValidateError::PerAxisLen { label: "Step", noun: "directions", ndim: 3, found: 2 }
    );
}

#[test]
fn nd_enable_is_refused_without_extrapolation() {
    assert_eq!(
        InterpND::new(unit_grid(), cube_values(), StepLower, Extrapolate::Enable).unwrap_err(),
        ValidateError::ExtrapolateUnsupported
    );
    assert_eq!(
        InterpND::new(vec![vec![0, 10], vec![0, 10]], square_values(), Nearest, Extrapolate::Enable).unwrap_err(),
        ValidateError::ExtrapolateUnsupported
    );
}

#[test]
fn nd_error_lists_every_axis_left() {
    let interp = InterpND::new(unit_grid(), cube_values(), StepLower, Extrapolate::Error).unwrap();
    assert_eq!(
        interp.interpolate(&[-1., 0.5, 2.]).unwrap_err(),
        InterpolateError::OutOfBounds(vec![OutOfBoundsAt::new(0, 0), OutOfBoundsAt::new(0, 2)])
    );
}

#[test]
fn nd_point_of_the_wrong_length() {
    let interp = InterpND::new(unit_grid(), cube_values(), StepLower, Extrapolate::Error).unwrap();
    assert_eq!(
        interp.interpolate(&[0.5, 0.5]).unwrap_err(),
        InterpolateError::PointLength { expected: 3, failures: vec![WrongLengthAt::new(0, 2)] }
    );
}

#[test]
fn nd_batch_error_aggregates_all_points() {
    let interp = InterpND::new(
        vec![vec![0.1, 1.1], vec![0.2, 1.2], vec![0.3, 1.3]],
        cube_values(),
        StepLower,
        Extrapolate::Error,
    )
    .unwrap();
    let points: [&[f64]; 3] = [&[0.4, 0.4, 0.4], &[-1., -1., -1.], &[2., 2., 2.]];
    assert_eq!(
        interp.batch_interpolate(&points).unwrap_err(),
        InterpolateError::OutOfBounds(vec![
            OutOfBoundsAt::new(1, 0),
            OutOfBoundsAt::new(1, 1),
            OutOfBoundsAt::new(1, 2),
            OutOfBoundsAt::new(2, 0),
            OutOfBoundsAt::new(2, 1),
            OutOfBoundsAt::new(2, 2),
        ])
    );
}

#[test]
fn nd_batch_point_length_mismatch() {
    let interp = InterpND::new(unit_grid(), cube_values(), StepLower, Extrapolate::Error).unwrap();
    let points: [&[f64]; 2] = [&[0.25, 0.65, 0.9], &[0.5, 0.5]];
    assert_eq!(
        interp.batch_interpolate(&points).unwrap_err(),
        InterpolateError::PointLength { expected: 3, failures: vec![WrongLengthAt::new(1, 2)] }
    );
    let mut out = vec![0.; 3];
    let ok: [&[f64]; 2] = [&[0.25, 0.65, 0.9], &[0.5, 0.5, 0.5]];
    assert_eq!(
        interp.batch_interpolate_into(&ok, &mut out).unwrap_err(),
        InterpolateError::OutputLength { expected: 2, found: 3 }
    );
}

#[test]
fn nd_batch_matches_single_points() {
    let interp = InterpND::new(vec![vec![0, 10], vec![0, 10]], square_values(), StepUpper, Extrapolate::Clamp).unwrap();
    let points: [&[i32]; 4] = [&[5, 5], &[-4, 3], &[12, -1], &[0, 10]];
    let batched = interp.batch_interpolate(&points).unwrap();
    let looped: Vec<i32> = points.iter().map(|p| interp.interpolate(p).unwrap()).collect();
    assert_eq!(batched, looped);
    assert_eq!(batched, vec![3, 1, 2, 1]);
}

#[test]
fn nd_fill_beyond_the_grid() {
    let interp = InterpND::new(vec![vec![0, 10], vec![0, 10]], square_values(), StepLower, Extrapolate::Fill(-1)).unwrap();
    assert_eq!(interp.interpolate(&[20, 5]).unwrap(), -1);
    assert_eq!(interp.interpolate(&[5, 5]).unwrap(), 0);
    let points: [&[i32]; 3] = [&[5, 5], &[20, 5], &[0, 10]];
    assert_eq!(interp.batch_interpolate(&points).unwrap(), vec![0, -1, 1]);
}

#[test]
fn nd_wrap_around_the_grid() {
    let interp = InterpND::new(vec![vec![0, 10], vec![0, 10]], square_values(), StepLower, Extrapolate::Wrap).unwrap();
    assert_eq!(interp.interpolate(&[12, 3]).unwrap(), interp.interpolate(&[2, 3]).unwrap());
    assert_eq!(interp.interpolate(&[-3, 13]).unwrap(), interp.interpolate(&[7, 3]).unwrap());
    // A point on the last grid line lies inside the grid and is not wrapped.
    assert_eq!(interp.interpolate(&[10, 10]).unwrap(), 3);
}

#[test]
fn nd_fast_paths() {
    let interp = InterpND::new(unit_grid(), cube_values(), StepUpper, Extrapolate::Error).unwrap();
    assert_eq!(interp.interpolate_fast(&[0.25, 0.65, 0.9]), interp.interpolate(&[0.25, 0.65, 0.9]).unwrap());
    let points: [&[f64]; 2] = [&[0., 0., 0.], &[0.5, 0.5, 0.5]];
    assert_eq!(interp.batch_interpolate_fast(&points), vec![0., 7.]);
}

#[test]
fn nd_grid_axis_count() {
    assert_eq!(
        InterpND::new(
            unit_grid(),
            ValuesND::from_shape_vec(vec![2, 2], vec![0., 1., 2., 3.]).unwrap(),
            StepLower,
            Extrapolate::Error,
        )
        .unwrap_err(),
        ValidateError::GridAxisCount { expected: 2, found: 3 }
    );
    let single = ValuesND::from_shape_vec(vec![1], vec![0.]).unwrap();
    assert!(InterpND::new(vec![vec![]], single.clone(), StepLower, Extrapolate::Error).is_ok());
    assert_eq!(
        InterpND::new(vec![vec![1.]], single, StepLower, Extrapolate::Error).unwrap_err(),
        ValidateError::GridAxisCount { expected: 0, found: 1 }
    );
}

#[test]
fn nd_through_the_interpolator_interface() {
    let mut interp = InterpND::new(vec![vec![0, 10], vec![0, 10]], square_values(), Nearest, Extrapolate::Error).unwrap();
    assert_eq!(Interpolator::ndim(&interp), 2);
    assert_eq!(Interpolator::validate(&interp), Ok(()));
    assert_eq!(Interpolator::interpolate(&interp, &[9, 1][..]), Ok(2));
    assert_eq!(Interpolator::set_extrapolate(&mut interp, Extrapolate::Fill(9)), Ok(()));
    let points: [&[i32]; 2] = [&[9, 1], &[11, 1]];
    assert_eq!(Interpolator::batch_interpolate(&interp, &points), Ok(vec![2, 9]));
    assert_eq!(
        Interpolator::set_extrapolate(&mut interp, Extrapolate::Enable),
        Err(ValidateError::ExtrapolateUnsupported)
    );
    assert_eq!(interp.extrapolate, Extrapolate::Fill(9));
}
