use ninterp::error::{InterpolateError, OutOfBoundsAt, ValidateError};
use ninterp::extrapolate::Extrapolate;
use ninterp::interp::Interp3D;
use ninterp::strategy::{Nearest, Step, StepDirection, StepLower};

#[test]
fn tests_test_step() {
    let interp = Interp3D::new(
        vec![0., 1.],
        vec![0., 1.],
        vec![0., 1.],
        vec![vec![vec![0., 1.], vec![2., 3.]], vec![vec![4., 5.], vec![6., 7.]]],
        Step::lower(),
        Extrapolate::Error,
    )
    .unwrap();
    // At grid points: exact value
    let x = &interp.data.grid[0];
    let y = &interp.data.grid[1];
    let z = &interp.data.grid[2];
    for (i, xi) in x.iter().enumerate() {
        for (j, yj) in y.iter().enumerate() {
            for (k, zk) in z.iter().enumerate() {
                assert_eq!(
                    interp.interpolate(&[*xi, *yj, *zk]).unwrap(),
                    interp.data.values[i][j][k]
                );
            }
        }
    }
    // Between points: floor each dimension to index 0
    assert_eq!(interp.interpolate(&[0.3, 0.7, 0.6]).unwrap(), 0.); // floor→[0,0,0]
    assert_eq!(interp.interpolate(&[0.9, 0.4, 0.1]).unwrap(), 0.); // floor→[0,0,0]

    // Uniform Upper (ceiling)
    let interp_upper = Interp3D::new(
        vec![0., 1.],
        vec![0., 1.],
        vec![0., 1.],
        vec![vec![vec![0., 1.], vec![2., 3.]], vec![vec![4., 5.], vec![6., 7.]]],
        Step::upper(),
        Extrapolate::Error,
    )
    .unwrap();
    assert_eq!(interp_upper.interpolate(&[0.3, 0.7, 0.6]).unwrap(), 7.); // ceil→[1,1,1]

    // Per-dimension: Lower in x, Upper in y, Lower in z
    let interp_mixed = Interp3D::new(
        vec![0., 1.],
        vec![0., 1.],
        vec![0., 1.],
        vec![vec![vec![0., 1.], vec![2., 3.]], vec![vec![4., 5.], vec![6., 7.]]],
        Step::new(vec![StepDirection::Lower, StepDirection::Upper, StepDirection::Lower]),
        Extrapolate::Error,
    )
    .unwrap();
    assert_eq!(interp_mixed.interpolate(&[0.6, 0.4, 0.8]).unwrap(), 2.); // floor x→0, ceil y→1, floor z→0 → [0,1,0]
}

fn cube() -> Vec<Vec<Vec<i32>>> {
    vec![vec![vec![0, 1], vec![2, 3]], vec![vec![4, 5], vec![6, 7]]]
}

#[test]
fn three_dimensional_validation_errors() {
    assert_eq!(
        Interp3D::new(vec![0, 1], vec![0, 1], vec![0, 1], cube(), Step(vec![StepDirection::Lower; 2]), Extrapolate::Error)
            .unwrap_err(),
        ValidateError::PerAxisLen { label: "Step", noun: "directions", ndim: 3, found: 2 }
    );
    let mut ragged = cube();
    ragged[1][0].push(9);
    assert_eq!(
        Interp3D::new(vec![0, 1], vec![0, 1], vec![0, 1], ragged, StepLower, Extrapolate::Error).unwrap_err(),
        ValidateError::IncompatibleShapes(2)
    );
    assert_eq!(
        Interp3D::new(vec![0, 1], vec![0, 1], vec![1, 1], cube(), StepLower, Extrapolate::Error).unwrap_err(),
        ValidateError::NotStrictlyIncreasing(2)
    );
}

#[test]
fn three_dimensional_extrapolation() {
    let interp = Interp3D::new(vec![0, 1], vec![0, 1], vec![0, 1], cube(), StepLower, Extrapolate::Error).unwrap();
    assert_eq!(
        interp.interpolate(&[2, 0, -1]).unwrap_err(),
        InterpolateError::OutOfBounds(vec![OutOfBoundsAt::new(0, 0), OutOfBoundsAt::new(0, 2)])
    );
    let clamp = Interp3D::new(vec![0, 1], vec![0, 1], vec![0, 1], cube(), StepLower, Extrapolate::Clamp).unwrap();
    assert_eq!(clamp.interpolate(&[2, 0, -1]).unwrap(), 4);
    let nearest = Interp3D::new(vec![0, 10], vec![0, 10], vec![0, 10], cube(), Nearest, Extrapolate::Error).unwrap();
    assert_eq!(nearest.interpolate(&[4, 5, 6]).unwrap(), 3);
    assert_eq!(nearest.ndim(), 3);
    assert_eq!(nearest.batch_interpolate(&[[4, 5, 6], [10, 0, 0]]).unwrap(), vec![3, 4]);
}
