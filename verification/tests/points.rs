use ninterp::dyn_interp::DynInterpolator;
use ninterp::error::{InterpolateError, WrongLengthAt};
use ninterp::points::{to_fixed_point, to_fixed_points};

#[test]
fn runtime_points_of_the_right_length_convert() {
    let p: [f64; 2] = to_fixed_point(&[1.0, 2.0]).unwrap();
    assert_eq!(p, [1.0, 2.0]);
    let ps: Vec<[i32; 1]> = to_fixed_points(&[&[1][..], &[2][..]]).unwrap();
    assert_eq!(ps, vec![[1], [2]]);
    let none: Vec<[i32; 3]> = to_fixed_points(&[]).unwrap();
    assert!(none.is_empty());
}

#[test]
fn wrong_length_points_are_all_reported() {
    let err = to_fixed_point::<f64, 1>(&[]).unwrap_err();
    assert_eq!(
        err,
        InterpolateError::PointLength { expected: 1, failures: vec![WrongLengthAt::new(0, 0)] }
    );
    let points: [&[i32]; 4] = [&[1, 2], &[3], &[4, 5], &[6, 7, 8]];
    let err = to_fixed_points::<i32, 2>(&points).unwrap_err();
    assert_eq!(
        err,
        InterpolateError::PointLength {
            expected: 2,
            failures: vec![WrongLengthAt::new(1, 1), WrongLengthAt::new(3, 3)],
        }
    );
}

/// Sums the coordinates of a point, refusing an empty one.
struct Sum;

impl DynInterpolator<i64> for Sum {
    fn slice_interpolation(&self, point: &[i64]) -> Result<i64, InterpolateError> {
        self.interpolate_slice(point)
    }

    fn interpolate_slice(&self, point: &[i64]) -> Result<i64, InterpolateError> {
        if point.is_empty() {
            Err(InterpolateError::Other(String::from("empty")))
        } else {
            Ok(point.iter().sum())
        }
    }
}

#[test]
fn batch_over_a_dyn_interpolator_stops_at_the_first_error() {
    let interp: Box<dyn DynInterpolator<i64>> = Box::new(Sum);
    assert_eq!(interp.batch_interpolate_slice(&[&[1, 2], &[3]]).unwrap(), vec![3, 3]);
    assert_eq!(
        interp.batch_interpolate_slice(&[&[1], &[], &[]]).unwrap_err(),
        InterpolateError::Other(String::from("empty"))
    );
}
