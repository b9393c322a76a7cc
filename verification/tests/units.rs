use ninterp::error::{InterpolateError, OutOfBoundsAt, ValidateError};
use ninterp::extrapolate::Extrapolate;
use ninterp::strategy::{Step, StepDirection, StepLower, StepUpper};
use ninterp::uom::{BaseUnit, UomInterp0D, UomInterp1D, UomInterp2D, UomInterp3D};

/// A length stored in metres, whose base unit is the millimetre.
#[derive(Debug, Clone, Copy, PartialEq)]
struct Metres(i64);

impl BaseUnit<i64> for Metres {
    fn base_value(self) -> i64 {
        self.0 * 1000
    }
    fn from_base_value(value: i64) -> Self {
        Metres(value / 1000)
    }
    fn to_base(self) -> i64 {
        self.0 * 1000
    }
    fn from_base(value: i64) -> Self {
        Metres(value / 1000)
    }
    fn lemma_base_round_trip(_q: Self) {}
}

/// A mass stored in kilograms, the base unit.
#[derive(Debug, Clone, Copy, PartialEq)]
struct Kilograms(i64);

impl BaseUnit<i64> for Kilograms {
    fn base_value(self) -> i64 {
        self.0
    }
    fn from_base_value(value: i64) -> Self {
        Kilograms(value)
    }
    fn to_base(self) -> i64 {
        self.0
    }
    fn from_base(value: i64) -> Self {
        Kilograms(value)
    }
    fn lemma_base_round_trip(_q: Self) {}
}

#[test]
fn constant_quantity_round_trips() {
    let interp = UomInterp0D::<Metres, i64>::new(Metres(4));
    assert_eq!(interp.inner.0, 4000);
    assert_eq!(interp.interpolate(), Metres(4));
}

#[test]
fn one_dimensional_quantities_are_interpolated_in_base_units() {
    let interp = UomInterp1D::<Metres, Kilograms, i64, _>::new(
        vec![Metres(0), Metres(2), Metres(4)],
        vec![Kilograms(10), Kilograms(20), Kilograms(30)],
        StepLower,
        Extrapolate::Error,
    )
    .unwrap();
    assert_eq!(interp.inner.data.grid[0], vec![0, 2000, 4000]);
    assert_eq!(interp.ndim(), 1);
    assert_eq!(interp.interpolate(Metres(3)).unwrap(), Kilograms(20));
    assert_eq!(
        interp.interpolate(Metres(9)).unwrap_err(),
        InterpolateError::OutOfBounds(vec![OutOfBoundsAt::new(0, 0)])
    );
}

#[test]
fn quantity_grids_are_validated_after_conversion() {
    // 2 m and 2 m are both 2000 mm once converted.
    assert_eq!(
        UomInterp1D::<Metres, Kilograms, i64, _>::new(
            vec![Metres(0), Metres(2), Metres(2)],
            vec![Kilograms(1), Kilograms(2), Kilograms(3)],
            StepUpper,
            Extrapolate::Error,
        )
        .unwrap_err(),
        ValidateError::NotStrictlyIncreasing(0)
    );
}

#[test]
fn two_and_three_dimensional_quantities() {
    let interp = UomInterp2D::<Metres, Kilograms, Kilograms, i64, _>::new(
        vec![Metres(0), Metres(2)],
        vec![Kilograms(0), Kilograms(10)],
        vec![vec![Kilograms(1), Kilograms(2)], vec![Kilograms(3), Kilograms(4)]],
        Step::new(vec![StepDirection::Upper, StepDirection::Lower]),
        Extrapolate::Clamp,
    )
    .unwrap();
    assert_eq!(interp.ndim(), 2);
    assert_eq!(interp.interpolate(Metres(1), Kilograms(9)).unwrap(), Kilograms(3));
    assert_eq!(interp.interpolate(Metres(-5), Kilograms(99)).unwrap(), Kilograms(2));

    let interp = UomInterp3D::<Kilograms, Kilograms, Kilograms, Kilograms, i64, _>::new(
        vec![Kilograms(0), Kilograms(1)],
        vec![Kilograms(0), Kilograms(1)],
        vec![Kilograms(0), Kilograms(1)],
        vec![
            vec![vec![Kilograms(0), Kilograms(1)], vec![Kilograms(2), Kilograms(3)]],
            vec![vec![Kilograms(4), Kilograms(5)], vec![Kilograms(6), Kilograms(7)]],
        ],
        Step::upper(),
        Extrapolate::Error,
    )
    .unwrap();
    assert_eq!(interp.ndim(), 3);
    assert_eq!(interp.interpolate(Kilograms(1), Kilograms(0), Kilograms(1)).unwrap(), Kilograms(5));
}

#[test]
fn quantity_batches_and_settings() {
    let mut interp = UomInterp1D::<Metres, Kilograms, i64, _>::new(
        vec![Metres(0), Metres(2), Metres(4)],
        vec![Kilograms(10), Kilograms(20), Kilograms(30)],
        Step::upper(),
        Extrapolate::Error,
    )
    .unwrap();
    assert!(interp.validate().is_ok());
    assert!(interp.validate_strategy().is_ok());
    assert!(interp.init_strategy().is_ok());
    assert_eq!(interp.interpolate_fast(Metres(1)), Kilograms(20));
    assert_eq!(
        interp.batch_interpolate(&[Metres(0), Metres(3)]).unwrap(),
        vec![Kilograms(10), Kilograms(30)]
    );
    assert_eq!(
        interp.batch_interpolate(&[Metres(0), Metres(9), Metres(-1)]).unwrap_err(),
        InterpolateError::OutOfBounds(vec![OutOfBoundsAt::new(1, 0), OutOfBoundsAt::new(2, 0)])
    );
    assert_eq!(
        interp.batch_interpolate_fast(&[Metres(1), Metres(4)]),
        vec![Kilograms(20), Kilograms(30)]
    );
    let mut out = [Kilograms(0); 2];
    assert_eq!(interp.batch_interpolate_into(&[Metres(2), Metres(0)], &mut out), Ok(()));
    assert_eq!(out, [Kilograms(20), Kilograms(10)]);
    let mut short = [Kilograms(0); 1];
    assert_eq!(
        interp.batch_interpolate_into(&[Metres(2), Metres(0)], &mut short),
        Err(InterpolateError::OutputLength { expected: 2, found: 1 })
    );
    let mut out = [Kilograms(0); 2];
    interp.batch_interpolate_fast_into(&[Metres(0), Metres(2)], &mut out);
    assert_eq!(out, [Kilograms(10), Kilograms(20)]);

    assert_eq!(interp.validate_extrapolate(&Extrapolate::Enable), Err(ValidateError::ExtrapolateUnsupported));
    assert_eq!(interp.set_extrapolate(Extrapolate::Clamp), Ok(()));
    assert_eq!(interp.interpolate(Metres(9)).unwrap(), Kilograms(30));
    assert_eq!(interp.set_strategy(Step::lower()), Ok(()));
    assert_eq!(interp.interpolate(Metres(3)).unwrap(), Kilograms(20));
    assert_eq!(interp.view().ndim(), 1);
    assert_eq!(interp.into_owned().interpolate(Metres(-1)).unwrap(), Kilograms(10));
}

#[test]
fn two_dimensional_quantity_batches() {
    let interp = UomInterp2D::<Metres, Kilograms, Kilograms, i64, _>::new(
        vec![Metres(0), Metres(2)],
        vec![Kilograms(0), Kilograms(10)],
        vec![vec![Kilograms(1), Kilograms(2)], vec![Kilograms(3), Kilograms(4)]],
        StepLower,
        Extrapolate::Fill(-1),
    )
    .unwrap();
    assert_eq!(
        interp.batch_interpolate(&[(Metres(2), Kilograms(5)), (Metres(9), Kilograms(5))]).unwrap(),
        vec![Kilograms(3), Kilograms(-1)]
    );
}
