use ninterp::data::InterpData2D;
use ninterp::error::{InterpolateError, OutOfBoundsAt, ValidateError};
use ninterp::extrapolate::Extrapolate;
use ninterp::interp::Interp2D;
use ninterp::strategy::{Nearest, Step, StepDirection, StepLower, StepUpper};

#[test]
fn test_step() {
    let grid_x = vec![0., 1., 2.];
    let grid_y = vec![0., 1., 2.];
    let values = vec![vec![0., 1., 2.], vec![3., 4., 5.], vec![6., 7., 8.]];

    // Uniform Lower (floor) in all dimensions
    let interp = Interp2D::new(
        grid_x.clone(),
        grid_y.clone(),
        values.clone(),
        Step::from(StepDirection::Lower),
        Extrapolate::Error,
    )
    .unwrap();
    let x = &interp.data.grid[0];
    let y = &interp.data.grid[1];
    let f = &interp.data.values;
    for (i, xi) in x.iter().enumerate() {
        for (j, yj) in y.iter().enumerate() {
            assert_eq!(interp.interpolate(&[*xi, *yj]).unwrap(), f[i][j]);
        }
    }
    assert_eq!(interp.interpolate(&[0.7, 1.4]).unwrap(), f[0][1]); // floor x→0, floor y→1
    assert_eq!(interp.interpolate(&[1.9, 0.1]).unwrap(), f[1][0]); // floor x→1, floor y→0

    let interp_lower = Interp2D::new(
        grid_x.clone(),
        grid_y.clone(),
        values.clone(),
        StepLower,
        Extrapolate::Error,
    )
    .unwrap();
    assert_eq!(interp_lower.interpolate(&[0.7, 1.4]).unwrap(), f[0][1]);

    let interp_upper = Interp2D::new(
        grid_x.clone(),
        grid_y.clone(),
        values.clone(),
        StepUpper,
        Extrapolate::Error,
    )
    .unwrap();
    assert_eq!(interp_upper.interpolate(&[0.7, 1.4]).unwrap(), f[1][2]);

    // Per-dimension: Lower in x, Upper in y
    let interp_mixed = Interp2D::new(
        grid_x.clone(),
        grid_y.clone(),
        values.clone(),
        Step(vec![StepDirection::Lower, StepDirection::Upper]),
        Extrapolate::Error,
    )
    .unwrap();
    assert_eq!(interp_mixed.interpolate(&[0.7, 1.4]).unwrap(), f[0][2]); // floor x→0, ceil y→2
    assert_eq!(interp_mixed.interpolate(&[1.3, 0.8]).unwrap(), f[1][1]); // floor x→1, ceil y→1

    // Invalid: 3 directions for 2-D
    assert!(Interp2D::new(
        grid_x,
        grid_y,
        values,
        Step(vec![StepDirection::Lower, StepDirection::Lower, StepDirection::Lower]),
        Extrapolate::Error,
    )
    .is_err());
}

fn grid_2d() -> (Vec<i64>, Vec<i64>, Vec<Vec<i64>>) {
    (
        vec![0, 10, 20],
        vec![0, 5],
        vec![vec![1, 2], vec![3, 4], vec![5, 6]],
    )
}

#[test]
fn shape_errors_name_the_axis() {
    let (x, y, _) = grid_2d();
    assert_eq!(
        Interp2D::new(x.clone(), y.clone(), vec![vec![1, 2], vec![3, 4]], StepLower, Extrapolate::Error)
            .unwrap_err(),
        ValidateError::IncompatibleShapes(0)
    );
    // A ragged row does not match the second axis.
    assert_eq!(
        Interp2D::new(
            x.clone(),
            y.clone(),
            vec![vec![1, 2], vec![3], vec![5, 6]],
            StepLower,
            Extrapolate::Error
        )
        .unwrap_err(),
        ValidateError::IncompatibleShapes(1)
    );
    assert_eq!(
        Interp2D::new(x.clone(), vec![5, 0], vec![vec![1, 2]; 3], StepLower, Extrapolate::Error)
            .unwrap_err(),
        ValidateError::NotStrictlyIncreasing(1)
    );
    assert_eq!(
        InterpData2D::new(x, vec![0], vec![vec![1]; 3]).unwrap_err(),
        ValidateError::InsufficientGridPoints(1)
    );
}

#[test]
fn out_of_bounds_entries_name_each_axis_left() {
    let (x, y, f) = grid_2d();
    let interp = Interp2D::new(x, y, f, StepLower, Extrapolate::Error).unwrap();
    assert_eq!(
        interp.interpolate(&[-1, 6]).unwrap_err(),
        InterpolateError::OutOfBounds(vec![OutOfBoundsAt::new(0, 0), OutOfBoundsAt::new(0, 1)])
    );
    assert_eq!(
        interp.interpolate(&[5, 6]).unwrap_err(),
        InterpolateError::OutOfBounds(vec![OutOfBoundsAt::new(0, 1)])
    );
    assert_eq!(
        interp.batch_interpolate(&[[5, 2], [25, 2], [5, -2]]).unwrap_err(),
        InterpolateError::OutOfBounds(vec![OutOfBoundsAt::new(1, 0), OutOfBoundsAt::new(2, 1)])
    );
}

#[test]
fn clamp_fill_and_wrap_in_two_dimensions() {
    let (x, y, f) = grid_2d();
    let clamp = Interp2D::new(x.clone(), y.clone(), f.clone(), StepUpper, Extrapolate::Clamp).unwrap();
    assert_eq!(clamp.interpolate(&[-3, 100]).unwrap(), 2);
    assert_eq!(clamp.interpolate(&[30, 3]).unwrap(), 6);

    let fill = Interp2D::new(x.clone(), y.clone(), f.clone(), StepUpper, Extrapolate::Fill(0)).unwrap();
    assert_eq!(fill.interpolate(&[30, 3]).unwrap(), 0);
    assert_eq!(fill.interpolate(&[3, 3]).unwrap(), 4);

    let wrap = Interp2D::new(x, y, f, StepLower, Extrapolate::Wrap).unwrap();
    // x: wrap(25, 0, 20) == 5; y: 3 stays inside.
    assert_eq!(wrap.interpolate(&[25, 3]).unwrap(), 1);
    // y: wrap(-1, 0, 5) == 4
    assert_eq!(wrap.interpolate(&[12, -1]).unwrap(), 3);
    let points = [[25, 3], [12, -1], [20, 5]];
    let looped: Vec<i64> = points.iter().map(|p| wrap.interpolate(p).unwrap()).collect();
    assert_eq!(wrap.batch_interpolate(&points).unwrap(), looped);
}

#[test]
fn nearest_in_two_dimensions() {
    let (x, y, f) = grid_2d();
    let interp = Interp2D::new(x, y, f, Nearest, Extrapolate::Error).unwrap();
    assert_eq!(interp.interpolate(&[4, 2]).unwrap(), 1);
    assert_eq!(interp.interpolate(&[5, 3]).unwrap(), 4);
    assert_eq!(interp.interpolate(&[16, 2]).unwrap(), 5);
    assert_eq!(interp.ndim(), 2);
}

#[test]
fn batch_into_two_dimensions_checks_output_length() {
    let (x, y, f) = grid_2d();
    let interp = Interp2D::new(x, y, f, StepLower, Extrapolate::Error).unwrap();
    let mut out = vec![0; 1];
    assert_eq!(
        interp.batch_interpolate_into(&[[5, 1], [0, 0]], &mut out),
        Err(InterpolateError::OutputLength { expected: 2, found: 1 })
    );
    let mut out = vec![0; 2];
    assert_eq!(interp.batch_interpolate_into(&[[5, 1], [20, 5]], &mut out), Ok(()));
    assert_eq!(out, vec![1, 6]);
    assert_eq!(interp.batch_interpolate_fast(&[[5, 1], [20, 5]]), vec![1, 6]);
}

#[test]
fn set_strategy_in_two_dimensions() {
    let (x, y, f) = grid_2d();
    let mut interp = Interp2D::new(x, y, f, Step::lower(), Extrapolate::Error).unwrap();
    assert_eq!(
        interp.set_strategy(Step(vec![StepDirection::Upper; 3])),
        Err(ValidateError::PerAxisLen { label: "Step", noun: "directions", ndim: 2, found: 3 })
    );
    assert_eq!(interp.set_strategy(Step(vec![StepDirection::Upper, StepDirection::Lower])), Ok(()));
    assert_eq!(interp.interpolate(&[5, 4]).unwrap(), 3);
}
