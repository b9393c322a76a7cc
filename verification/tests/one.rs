use ninterp::data::InterpData1D;
use ninterp::error::{InterpolateError, OutOfBoundsAt, ValidateError};
use ninterp::extrapolate::Extrapolate;
use ninterp::interp::Interp1D;
use ninterp::strategy::{Nearest, Step, StepDirection, StepLower, StepUpper};

#[test]
fn test_step_markers() {
    let lower = Interp1D::new(
        vec![0., 1., 2., 3., 4.],
        vec![0.2, 0.4, 0.6, 0.8, 1.0],
        StepLower,
        Extrapolate::Error,
    )
    .unwrap();
    assert_eq!(lower.interpolate(&[3.75]).unwrap(), 0.8);
    assert_eq!(lower.interpolate(&[4.00]).unwrap(), 1.0);

    let upper = Interp1D::new(
        vec![0., 1., 2., 3., 4.],
        vec![0.2, 0.4, 0.6, 0.8, 1.0],
        StepUpper,
        Extrapolate::Error,
    )
    .unwrap();
    assert_eq!(upper.interpolate(&[3.25]).unwrap(), 1.0);
    assert_eq!(upper.interpolate(&[3.00]).unwrap(), 0.8);
}

#[test]
fn test_left_nearest() {
    let interp = Interp1D::new(
        vec![0., 1., 2., 3., 4.],
        vec![0.2, 0.4, 0.6, 0.8, 1.0],
        Step::from(StepDirection::Lower),
        Extrapolate::Error,
    )
    .unwrap();
    // Check that interpolating at grid points just retrieves the value
    let x = &interp.data.grid[0];
    let f_x = &interp.data.values;
    for (i, x_i) in x.iter().enumerate() {
        assert_eq!(interp.interpolate(&[*x_i]).unwrap(), f_x[i]);
    }
    assert_eq!(interp.interpolate(&[3.00]).unwrap(), 0.8);
    assert_eq!(interp.interpolate(&[3.75]).unwrap(), 0.8);
    assert_eq!(interp.interpolate(&[4.00]).unwrap(), 1.0);
}

#[test]
fn test_right_nearest() {
    let interp = Interp1D::new(
        vec![0., 1., 2., 3., 4.],
        vec![0.2, 0.4, 0.6, 0.8, 1.0],
        Step::from(StepDirection::Upper),
        Extrapolate::Error,
    )
    .unwrap();
    // Check that interpolating at grid points just retrieves the value
    let x = &interp.data.grid[0];
    let f_x = &interp.data.values;
    for (i, x_i) in x.iter().enumerate() {
        assert_eq!(interp.interpolate(&[*x_i]).unwrap(), f_x[i]);
    }
    assert_eq!(interp.interpolate(&[3.00]).unwrap(), 0.8);
    assert_eq!(interp.interpolate(&[3.25]).unwrap(), 1.0);
    assert_eq!(interp.interpolate(&[4.00]).unwrap(), 1.0);
}

#[test]
fn test_integer_nearest_and_wrap_step() {
    let nearest = Interp1D::new(
        vec![0, 10, 20],
        vec![100, 200, 300],
        Nearest,
        Extrapolate::Error,
    )
    .unwrap();
    assert_eq!(nearest.interpolate(&[14]).unwrap(), 200);
    // Midpoint ties resolve to the upper bracket in Nearest.
    assert_eq!(nearest.interpolate(&[15]).unwrap(), 300);

    let step_wrap = Interp1D::new(
        vec![0, 10, 20],
        vec![100, 200, 300],
        Step::from(StepDirection::Lower),
        Extrapolate::Wrap,
    )
    .unwrap();
    // -1 wraps to 19 -> lower step bucket [10, 20].
    assert_eq!(step_wrap.interpolate(&[-1]).unwrap(), 200);
    // 21 wraps to 1 -> lower step bucket [0, 10].
    assert_eq!(step_wrap.interpolate(&[21]).unwrap(), 100);
}

#[test]
fn test_step_invalid_direction_count() {
    // 2 directions for a 1-D interpolator → ValidateError
    assert!(Interp1D::new(
        vec![0., 1., 2., 3., 4.],
        vec![0.2, 0.4, 0.6, 0.8, 1.0],
        Step(vec![StepDirection::Lower, StepDirection::Upper]),
        Extrapolate::Error,
    )
    .is_err());
}

#[test]
fn step_direction_count_error_names_the_counts() {
    let err = Interp1D::new(
        vec![0., 1., 2.],
        vec![0.2, 0.4, 0.6],
        Step(vec![StepDirection::Lower, StepDirection::Upper]),
        Extrapolate::Error,
    )
    .unwrap_err();
    assert_eq!(
        err,
        ValidateError::PerAxisLen { label: "Step", noun: "directions", ndim: 1, found: 2 }
    );
}

#[test]
fn single_grid_point_is_insufficient() {
    assert_eq!(
        Interp1D::new(vec![5.0], vec![10.0], StepLower, Extrapolate::Error).unwrap_err(),
        ValidateError::InsufficientGridPoints(0)
    );
}

#[test]
fn unsorted_or_repeated_grid_is_refused() {
    assert_eq!(
        Interp1D::new(vec![0, 2, 1], vec![1, 2, 3], StepLower, Extrapolate::Error).unwrap_err(),
        ValidateError::NotStrictlyIncreasing(0)
    );
    assert_eq!(
        Interp1D::new(vec![0, 1, 1], vec![1, 2, 3], StepLower, Extrapolate::Error).unwrap_err(),
        ValidateError::NotStrictlyIncreasing(0)
    );
}

#[test]
fn values_length_must_match_grid() {
    assert_eq!(
        Interp1D::new(vec![0, 1, 2], vec![1, 2], StepLower, Extrapolate::Error).unwrap_err(),
        ValidateError::IncompatibleShapes(0)
    );
    assert_eq!(
        InterpData1D::new(vec![0, 1, 2], vec![1, 2, 3, 4]).unwrap_err(),
        ValidateError::IncompatibleShapes(0)
    );
    let data = InterpData1D::new(vec![0, 1, 2], vec![1, 2, 3]).unwrap();
    assert_eq!(data.grid[0], vec![0, 1, 2]);
    assert_eq!(data.values, vec![1, 2, 3]);
    assert!(data.validate().is_ok());
}

#[test]
fn enable_is_refused_by_non_extrapolating_strategies() {
    assert_eq!(
        Interp1D::new(vec![0i64, 1, 2], vec![1, 2, 3], Nearest, Extrapolate::Enable).unwrap_err(),
        ValidateError::ExtrapolateUnsupported
    );
    assert_eq!(
        Interp1D::new(vec![0, 1, 2], vec![1, 2, 3], StepLower, Extrapolate::Enable).unwrap_err(),
        ValidateError::ExtrapolateUnsupported
    );
}

#[test]
fn data_errors_come_before_extrapolate_errors() {
    assert_eq!(
        Interp1D::new(vec![0], vec![1], StepLower, Extrapolate::Enable).unwrap_err(),
        ValidateError::InsufficientGridPoints(0)
    );
}

#[test]
fn step_values_at_grid_points_i64() {
    let interp = Interp1D::new(
        vec![-5i64, 0, 3, 10],
        vec![7, -1, 4, 9],
        StepUpper,
        Extrapolate::Error,
    )
    .unwrap();
    for (x, f) in [(-5, 7), (0, -1), (3, 4), (10, 9)] {
        assert_eq!(interp.interpolate(&[x]).unwrap(), f);
    }
    assert_eq!(interp.interpolate(&[1]).unwrap(), 4);
    assert_eq!(interp.interpolate(&[-4]).unwrap(), -1);
}

#[test]
fn error_setting_reports_out_of_bounds_point() {
    let interp = Interp1D::new(
        vec![0., 1., 2., 3., 4.],
        vec![0.2, 0.4, 0.6, 0.8, 1.0],
        StepLower,
        Extrapolate::Error,
    )
    .unwrap();
    assert_eq!(
        interp.interpolate(&[-1.]).unwrap_err(),
        InterpolateError::OutOfBounds(vec![OutOfBoundsAt::new(0, 0)])
    );
    assert_eq!(
        interp.interpolate(&[5.]).unwrap_err(),
        InterpolateError::OutOfBounds(vec![OutOfBoundsAt::new(0, 0)])
    );
}

#[test]
fn fill_clamp_and_wrap_settings() {
    let fill = Interp1D::new(
        vec![0., 1., 2., 3., 4.],
        vec![0.2, 0.4, 0.6, 0.8, 1.0],
        StepLower,
        Extrapolate::Fill(f64::NAN),
    )
    .unwrap();
    assert_eq!(fill.interpolate(&[1.5]).unwrap(), 0.4);
    assert!(fill.interpolate(&[-1.]).unwrap().is_nan());
    assert!(fill.interpolate(&[5.]).unwrap().is_nan());

    let clamp = Interp1D::new(
        vec![0., 1., 2., 3., 4.],
        vec![0.2, 0.4, 0.6, 0.8, 1.0],
        StepUpper,
        Extrapolate::Clamp,
    )
    .unwrap();
    assert_eq!(clamp.interpolate(&[-1.]).unwrap(), 0.2);
    assert_eq!(clamp.interpolate(&[5.]).unwrap(), 1.0);

    let wrap = Interp1D::new(
        vec![0, 1, 2, 3, 4],
        vec![20, 40, 60, 80, 100],
        StepLower,
        Extrapolate::Wrap,
    )
    .unwrap();
    // The upper edge itself is inside the grid and is not wrapped.
    assert_eq!(wrap.interpolate(&[4]).unwrap(), 100);
    // wrap(5, 0, 4) == 1
    assert_eq!(wrap.interpolate(&[5]).unwrap(), 40);
    // wrap(-1, 0, 4) == 3
    assert_eq!(wrap.interpolate(&[-1]).unwrap(), 80);
}

#[test]
fn batch_error_lists_every_offending_point() {
    let interp = Interp1D::new(
        vec![0., 1., 2., 3., 4.],
        vec![0.2, 0.4, 0.6, 0.8, 1.0],
        StepLower,
        Extrapolate::Error,
    )
    .unwrap();
    let err = interp.batch_interpolate(&[[1.], [-1.], [2.], [5.]]).unwrap_err();
    assert_eq!(
        err,
        InterpolateError::OutOfBounds(vec![OutOfBoundsAt::new(1, 0), OutOfBoundsAt::new(3, 0)])
    );
}

#[test]
fn batch_matches_single_point_calls() {
    for extrapolate in [Extrapolate::Clamp, Extrapolate::Wrap, Extrapolate::Fill(-7)] {
        let interp = Interp1D::new(
            vec![0, 10, 20, 30],
            vec![1, 2, 3, 4],
            StepUpper,
            extrapolate,
        )
        .unwrap();
        let points = [[-15], [0], [5], [25], [30], [44]];
        let batched = interp.batch_interpolate(&points).unwrap();
        let looped: Vec<i32> = points.iter().map(|p| interp.interpolate(p).unwrap()).collect();
        assert_eq!(batched, looped);
    }
    let interp = Interp1D::new(vec![0, 10, 20], vec![1, 2, 3], StepUpper, Extrapolate::Error)
        .unwrap();
    let inside = [[0], [1], [19], [20]];
    assert_eq!(interp.batch_interpolate_fast(&inside), vec![1, 2, 3, 3]);
    assert_eq!(interp.batch_interpolate(&inside).unwrap(), vec![1, 2, 3, 3]);
    assert_eq!(interp.interpolate_fast(&[11]), 3);
}

#[test]
fn batch_into_checks_output_length() {
    let interp = Interp1D::new(vec![0, 10, 20], vec![1, 2, 3], StepLower, Extrapolate::Error)
        .unwrap();
    let mut out = vec![0; 1];
    assert_eq!(
        interp.batch_interpolate_into(&[[5], [15]], &mut out),
        Err(InterpolateError::OutputLength { expected: 2, found: 1 })
    );
    assert_eq!(out, vec![0]);
    let mut out = vec![0; 2];
    assert_eq!(interp.batch_interpolate_into(&[[5], [15]], &mut out), Ok(()));
    assert_eq!(out, vec![1, 2]);
    let mut out = vec![0; 2];
    interp.batch_interpolate_fast_into(&[[10], [20]], &mut out);
    assert_eq!(out, vec![2, 3]);
}

#[test]
fn set_extrapolate_refuses_enable_and_keeps_setting() {
    let mut interp = Interp1D::new(vec![0, 1, 2], vec![3, 4, 5], StepLower, Extrapolate::Error)
        .unwrap();
    assert_eq!(
        interp.set_extrapolate(Extrapolate::Enable),
        Err(ValidateError::ExtrapolateUnsupported)
    );
    assert_eq!(interp.extrapolate, Extrapolate::Error);
    assert_eq!(interp.set_extrapolate(Extrapolate::Clamp), Ok(()));
    assert_eq!(interp.extrapolate, Extrapolate::Clamp);
    assert_eq!(interp.interpolate(&[9]).unwrap(), 5);
}

#[test]
fn set_strategy_validates_the_new_strategy() {
    let mut interp = Interp1D::new(vec![0, 1, 2], vec![3, 4, 5], Step::lower(), Extrapolate::Error)
        .unwrap();
    let bad = Step(vec![StepDirection::Lower; 3]);
    assert_eq!(
        interp.set_strategy(bad.clone()),
        Err(ValidateError::PerAxisLen { label: "Step", noun: "directions", ndim: 1, found: 3 })
    );
    assert_eq!(interp.strategy, bad);
    assert_eq!(interp.set_strategy(Step::upper()), Ok(()));
    assert_eq!(interp.interpolate(&[1]).unwrap(), 4);
    assert!(interp.validate().is_ok());
    assert!(interp.validate_strategy().is_ok());
    assert!(interp.init_strategy().is_ok());
}

#[test]
fn validate_catches_data_mutated_after_construction() {
    let mut interp = Interp1D::new(vec![0, 1, 2], vec![3, 4, 5], StepLower, Extrapolate::Error)
        .unwrap();
    interp.data.grid[0] = vec![0, 2, 1];
    assert_eq!(interp.validate(), Err(ValidateError::NotStrictlyIncreasing(0)));
    interp.data.grid[0] = vec![0, 1, 2, 3];
    assert_eq!(interp.validate(), Err(ValidateError::IncompatibleShapes(0)));
}

#[test]
fn view_and_owned_forms_are_the_same_interpolator() {
    let interp = Interp1D::new(vec![0, 1, 2], vec![3, 4, 5], StepUpper, Extrapolate::Clamp)
        .unwrap();
    assert_eq!(interp.ndim(), 1);
    let view = interp.view();
    assert_eq!(view.data.grid[0], interp.data.grid[0]);
    assert_eq!(view.interpolate(&[1]).unwrap(), 4);
    let owned = interp.clone().into_owned();
    assert_eq!(owned.data.values, interp.data.values);
    assert_eq!(owned.interpolate(&[-3]).unwrap(), 3);
}

#[test]
fn nearest_on_integer_grids() {
    let interp = Interp1D::new(
        vec![-10i64, 0, 4, 100],
        vec![1, 2, 3, 4],
        Nearest,
        Extrapolate::Clamp,
    )
    .unwrap();
    assert_eq!(interp.interpolate(&[-10]).unwrap(), 1);
    assert_eq!(interp.interpolate(&[-6]).unwrap(), 1);
    assert_eq!(interp.interpolate(&[-5]).unwrap(), 2);
    assert_eq!(interp.interpolate(&[2]).unwrap(), 3);
    assert_eq!(interp.interpolate(&[51]).unwrap(), 3);
    assert_eq!(interp.interpolate(&[53]).unwrap(), 4);
    assert_eq!(interp.interpolate(&[500]).unwrap(), 4);
    assert_eq!(interp.interpolate(&[i64::MIN]).unwrap(), 1);
}

#[test]
fn wrap_setting_is_periodic_away_from_the_edges() {
    let interp = Interp1D::new(vec![0i64, 10, 20], vec![1, 2, 3], StepLower, Extrapolate::Wrap).unwrap();
    for x in -45i64..45 {
        if x == 0 || x == 20 {
            continue;
        }
        assert_eq!(interp.interpolate(&[x]).unwrap(), interp.interpolate(&[x + 20]).unwrap());
    }
    // The edges lie inside the grid and keep their own values.
    assert_eq!(interp.interpolate(&[0]).unwrap(), 1);
    assert_eq!(interp.interpolate(&[20]).unwrap(), 3);
    assert_eq!(interp.interpolate(&[40]).unwrap(), 1);
}

#[test]
fn construction_that_succeeds_validates() {
    let interp = Interp1D::new(vec![0, 10, 20], vec![1, 2, 3], Step::upper(), Extrapolate::Fill(0)).unwrap();
    assert_eq!(interp.validate(), Ok(()));
}

#[test]
fn nearest_on_every_integer_width() {
    let bytes = Interp1D::new(vec![0u8, 100, 255], vec![1u8, 2, 3], Nearest, Extrapolate::Error).unwrap();
    assert_eq!(bytes.interpolate(&[49]).unwrap(), 1);
    assert_eq!(bytes.interpolate(&[50]).unwrap(), 2);
    assert_eq!(bytes.interpolate(&[178]).unwrap(), 3);
    let wide = Interp1D::new(vec![0u64, u64::MAX], vec![7u64, 9], Nearest, Extrapolate::Error).unwrap();
    assert_eq!(wide.interpolate(&[u64::MAX / 2]).unwrap(), 7);
    assert_eq!(wide.interpolate(&[u64::MAX / 2 + 1]).unwrap(), 9);
    let extremes =
        Interp1D::new(vec![i64::MIN, 0, i64::MAX], vec![-1i64, 0, 1], Nearest, Extrapolate::Error).unwrap();
    assert_eq!(extremes.interpolate(&[i64::MIN / 2]).unwrap(), 0);
    assert_eq!(extremes.interpolate(&[i64::MIN / 2 - 1]).unwrap(), -1);
    let sizes = Interp1D::new(vec![0usize, 4], vec![10usize, 20], Nearest, Extrapolate::Clamp).unwrap();
    assert_eq!(sizes.interpolate(&[1]).unwrap(), 10);
    assert_eq!(sizes.interpolate(&[2]).unwrap(), 20);
    assert_eq!(sizes.interpolate(&[99]).unwrap(), 20);
}
