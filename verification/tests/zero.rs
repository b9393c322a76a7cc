use ninterp::error::{InterpolateError, WrongLengthAt};
use ninterp::extrapolate::Extrapolate;
use ninterp::interp::Interp0D;
use ninterp::interpolator::Interpolator;

#[test]
fn constant_value_for_the_empty_point() {
    let interp = Interp0D::new(0.5);
    assert_eq!(interp.ndim(), 0);
    assert!(interp.validate().is_ok());
    assert_eq!(interp.interpolate(&[]).unwrap(), 0.5);
}

#[test]
fn non_empty_point_has_the_wrong_length() {
    let interp = Interp0D::new(7);
    assert_eq!(
        interp.interpolate(&[1, 2]).unwrap_err(),
        InterpolateError::PointLength { expected: 0, failures: vec![WrongLengthAt::new(0, 2)] }
    );
}

#[test]
fn every_extrapolate_setting_is_accepted() {
    let mut interp = Interp0D::new(3);
    for setting in [Extrapolate::Enable, Extrapolate::Fill(1), Extrapolate::Clamp, Extrapolate::Wrap, Extrapolate::Error] {
        assert_eq!(interp.set_extrapolate(setting), Ok(()));
    }
    assert_eq!(interp, Interp0D(3));
}
