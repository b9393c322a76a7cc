//! The 1-D, 2-D and 3-D interpolators, and the constant 0-D one.

use vstd::prelude::*;
use core::ops::{Add, Rem, Sub};
use crate::data::{InterpDataBase, InterpData1DBase, InterpData2DBase, InterpData3DBase};
use crate::error::{InterpolateError, ValidateError};
use crate::extrapolate::{
    batch_into_outcome, batch_wrap_ready, interpolate_outcome, views, Extrapolate,
};
use crate::order::{obeys_order, ordered};
use crate::strategy::Strategy;

verus! {

/// What checking `extrapolate` against a strategy that does (`extrapolates`) or does
/// not allow extrapolation reports: only `Enable` can be refused.
pub open spec fn extrapolate_validation<T>(extrapolate: Extrapolate<T>, extrapolates: bool) -> Result<(), ValidateError> {
    if extrapolate is Enable && !extrapolates {
        Err(ValidateError::ExtrapolateUnsupported)
    } else {
        Ok(())
    }
}

/// Check `extrapolate` against a strategy's `allow_extrapolate`.
pub(crate) fn check_extrapolate<T>(extrapolate: &Extrapolate<T>, allowed: bool) -> (r: Result<(), ValidateError>)
    ensures
        r == extrapolate_validation(*extrapolate, allowed),
{
    if matches!(extrapolate, Extrapolate::Enable) && !allowed {
        return Err(ValidateError::ExtrapolateUnsupported);
    }
    Ok(())
}

/// What constructing an interpolator from `data`, `strategy` and `extrapolate` reports:
/// the data's validation error, then an unsupported extrapolation setting, then the
/// strategy's validation error, then its initialization outcome.
pub open spec fn construction_outcome<
    T: PartialOrd,
    V: crate::data::Values<T, N>,
    S: Strategy<T, V, N>,
    const N: usize,
>(data: InterpDataBase<T, V, N>, strategy: S, extrapolate: Extrapolate<T>) -> Result<(), ValidateError> {
    if data.validation() is Err {
        data.validation()
    } else if extrapolate_validation(extrapolate, strategy.extrapolates()) is Err {
        extrapolate_validation(extrapolate, strategy.extrapolates())
    } else if strategy.validation(data) is Err {
        strategy.validation(data)
    } else {
        strategy.initialized(data).1
    }
}

/// What validating an interpolator of `data`, `strategy` and `extrapolate` reports: an
/// unsupported extrapolation setting, then the data's validation error, then the
/// strategy's.
pub open spec fn validation_outcome<
    T: PartialOrd,
    V: crate::data::Values<T, N>,
    S: Strategy<T, V, N>,
    const N: usize,
>(data: InterpDataBase<T, V, N>, strategy: S, extrapolate: Extrapolate<T>) -> Result<(), ValidateError> {
    if extrapolate_validation(extrapolate, strategy.extrapolates()) is Err {
        extrapolate_validation(extrapolate, strategy.extrapolates())
    } else if data.validation() is Err {
        data.validation()
    } else {
        strategy.validation(data)
    }
}

/// What a batch call returning a vector reports: the outcome of writing into some output
/// slice of one entry per point, whose final contents the vector holds on success.
pub open spec fn batch_vec_outcome<
    T: PartialOrd + Add<Output = T> + Sub<Output = T> + Rem<Output = T>,
    V: crate::data::Values<T, N>,
    S: Strategy<T, V, N>,
    const N: usize,
>(
    data: InterpDataBase<T, V, N>,
    strategy: S,
    extrapolate: Extrapolate<T>,
    points: Seq<[T; N]>,
    r: Result<Vec<T>, InterpolateError>,
) -> bool {
    exists|before: Seq<T>, after: Seq<T>|
        #![trigger before.len(), after.len()]
        before.len() == points.len() && after.len() == points.len() && match r {
            Ok(v) => v@ == after && batch_into_outcome(
                data,
                strategy,
                extrapolate,
                views(points),
                Ok::<(), InterpolateError>(()),
                before,
                after,
            ),
            Err(e) => batch_into_outcome(
                data,
                strategy,
                extrapolate,
                views(points),
                Err::<(), InterpolateError>(e),
                before,
                after,
            ),
        }
}

/// 0-D interpolator: a constant value, returned for the empty point.
#[derive(Debug, Clone, PartialEq)]
pub struct Interp0D<T>(pub T);

impl<T: Copy> Interp0D<T> {
    /// Construct a constant-value interpolator.
    pub fn new(value: T) -> (r: Self)
        ensures
            r.0 == value,
    {
        Interp0D(value)
    }
}

/// 1-D interpolator: data, strategy and extrapolation setting.
#[derive(Debug, Clone, PartialEq)]
pub struct Interp1DBase<T, S> {
    /// Interpolator data.
    pub data: InterpData1DBase<T>,
    /// Interpolation strategy.
    pub strategy: S,
    /// Extrapolation setting.
    pub extrapolate: Extrapolate<T>,
}

/// 1-D interpolator (owned data).
pub type Interp1D<T, S> = Interp1DBase<T, S>;

impl<T: PartialOrd + Copy + Add<Output = T> + Sub<Output = T> + Rem<Output = T>, S: Strategy<T, Vec<T>, 1>> Interp1DBase<T, S> {
    /// The data is shaped, the strategy accepts it, and the extrapolation setting suits
    /// the strategy: what interpolating relies on, and what `new` establishes.
    pub open spec fn ready(&self) -> bool {
        &&& self.data.shaped()
        &&& self.strategy.validation(self.data) is Ok
        &&& extrapolate_validation(self.extrapolate, self.strategy.extrapolates()) is Ok
    }

    /// What constructing from `data` reports: the data's validation error, then an
    /// unsupported extrapolation setting, then the strategy's validation error, then its
    /// initialization outcome.
    pub open spec fn construction(data: InterpData1DBase<T>, strategy: S, extrapolate: Extrapolate<T>) -> Result<(), ValidateError> {
        construction_outcome(data, strategy, extrapolate)
    }

    /// What validating reports: an unsupported extrapolation setting, then the data's
    /// validation error, then the strategy's.
    pub open spec fn validation(&self) -> Result<(), ValidateError> {
        validation_outcome(self.data, self.strategy, self.extrapolate)
    }

    /// Construct and validate a 1-D interpolator, initializing its strategy.
    pub fn new(x: Vec<T>, f_x: Vec<T>, strategy: S, extrapolate: Extrapolate<T>) -> (r: Result<Self, ValidateError>)
        ensures
            r matches Ok(it) ==> it.data == InterpData1DBase::from_parts(x, f_x) && it.strategy
                == strategy.initialized(it.data).0 && it.extrapolate == extrapolate && it.ready(),
            obeys_order::<T>() ==> match r {
                Ok(_) => Self::construction(InterpData1DBase::from_parts(x, f_x), strategy, extrapolate) is Ok,
                Err(e) => Self::construction(InterpData1DBase::from_parts(x, f_x), strategy, extrapolate) == Err::<(), ValidateError>(e),
            },
    {
        let data = match InterpData1DBase::new(x, f_x) {
            Ok(d) => d,
            Err(e) => {
                return Err(e);
            },
        };
        let mut interpolator = Interp1DBase { data, strategy, extrapolate };
        match interpolator.validate_extrapolate(&interpolator.extrapolate) {
            Ok(()) => {},
            Err(e) => {
                return Err(e);
            },
        }
        match interpolator.validate_strategy() {
            Ok(()) => {},
            Err(e) => {
                return Err(e);
            },
        }
        match interpolator.init_strategy() {
            Ok(()) => Ok(interpolator),
            Err(e) => Err(e),
        }
    }

    /// Interpolator dimensionality: `1`.
    pub fn ndim(&self) -> (r: usize)
        ensures
            r == 1,
    {
        1
    }

    /// Check that `extrapolate` suits the current strategy: only `Enable` can be
    /// refused, by a strategy that does not allow extrapolation.
    pub fn validate_extrapolate(&self, extrapolate: &Extrapolate<T>) -> (r: Result<(), ValidateError>)
        ensures
            r == extrapolate_validation(*extrapolate, self.strategy.extrapolates()),
    {
        check_extrapolate(extrapolate, self.strategy.allow_extrapolate())
    }

    /// Re-run the strategy's validation against the current data.
    pub fn validate_strategy(&self) -> (r: Result<(), ValidateError>)
        ensures
            r == self.strategy.validation(self.data),
    {
        self.strategy.validate(&self.data)
    }

    /// Re-run the strategy's initialization against the current data.
    pub fn init_strategy(&mut self) -> (r: Result<(), ValidateError>)
        ensures
            final(self).data == old(self).data,
            final(self).extrapolate == old(self).extrapolate,
            (final(self).strategy, r) == old(self).strategy.initialized(old(self).data),
            final(self).strategy.extrapolates() == old(self).strategy.extrapolates(),
            r is Ok && old(self).strategy.validation(old(self).data) is Ok ==> final(self).strategy.validation(final(self).data) is Ok,
    {
        self.strategy.init(&self.data)
    }

    /// Validate the extrapolation setting, the data, and the strategy, in that order.
    pub fn validate(&self) -> (r: Result<(), ValidateError>)
        ensures
            extrapolate_validation(self.extrapolate, self.strategy.extrapolates()) is Err ==> r == self.validation(),
            obeys_order::<T>() ==> r == self.validation(),
            r is Ok ==> self.ready(),
    {
        match self.validate_extrapolate(&self.extrapolate) {
            Ok(()) => {},
            Err(e) => {
                return Err(e);
            },
        }
        match self.data.validate() {
            Ok(()) => {},
            Err(e) => {
                return Err(e);
            },
        }
        self.validate_strategy()
    }

    /// Set the extrapolation setting, refusing one the strategy does not allow.
    pub fn set_extrapolate(&mut self, extrapolate: Extrapolate<T>) -> (r: Result<(), ValidateError>)
        ensures
            r == extrapolate_validation(extrapolate, old(self).strategy.extrapolates()),
            final(self).data == old(self).data,
            final(self).strategy == old(self).strategy,
            final(self).extrapolate == (if r is Ok { extrapolate } else { old(self).extrapolate }),
    {
        match self.validate_extrapolate(&extrapolate) {
            Ok(()) => {},
            Err(e) => {
                return Err(e);
            },
        }
        self.extrapolate = extrapolate;
        Ok(())
    }

    /// Replace the strategy, then check the extrapolation setting and the new strategy
    /// against the data and initialize it. The new strategy stays in place even when a
    /// check fails.
    pub fn set_strategy(&mut self, strategy: S) -> (r: Result<(), ValidateError>)
        ensures
            final(self).data == old(self).data,
            final(self).extrapolate == old(self).extrapolate,
            extrapolate_validation(old(self).extrapolate, strategy.extrapolates()) is Err ==> r
                == extrapolate_validation(old(self).extrapolate, strategy.extrapolates())
                && final(self).strategy == strategy,
            extrapolate_validation(old(self).extrapolate, strategy.extrapolates()) is Ok && strategy.validation(old(self).data) is Err ==> r
                == strategy.validation(old(self).data) && final(self).strategy == strategy,
            extrapolate_validation(old(self).extrapolate, strategy.extrapolates()) is Ok && strategy.validation(old(self).data) is Ok ==> (
                final(self).strategy, r) == strategy.initialized(old(self).data),
            r is Ok && old(self).data.shaped() ==> final(self).ready(),
    {
        self.strategy = strategy;
        match self.validate_extrapolate(&self.extrapolate) {
            Ok(()) => {},
            Err(e) => {
                return Err(e);
            },
        }
        match self.validate_strategy() {
            Ok(()) => {},
            Err(e) => {
                return Err(e);
            },
        }
        self.init_strategy()
    }

    /// Interpolate at `point`, resolving the extrapolation setting on every axis the
    /// point leaves the grid.
    pub fn interpolate(&self, point: &[T; 1]) -> (r: Result<T, InterpolateError>)
        requires
            self.ready(),
            self.extrapolate is Wrap ==> self.data.wrap_ready(point@),
        ensures
            ordered::<T>() && self.data.valid() ==> interpolate_outcome(
                self.data,
                self.strategy,
                self.extrapolate,
                point@,
                r,
            ),
    {
        crate::extrapolate::interpolate(&self.data, &self.strategy, &self.extrapolate, point)
    }

    /// Interpolate without the bounds check and extrapolation handling, for points the
    /// caller knows the strategy evaluates.
    pub fn interpolate_fast(&self, point: &[T; 1]) -> (r: T)
        requires
            self.ready(),
            ordered::<T>(),
            self.data.valid(),
            self.strategy.interpolation(self.data, point@) is Ok,
        ensures
            self.strategy.interpolation(self.data, point@) == Ok::<T, InterpolateError>(r),
    {
        match self.strategy.interpolate(&self.data, point) {
            Ok(v) => v,
            Err(_) => vstd::pervasive::unreached(),
        }
    }

    /// Interpolate at each of `points`, resolving the extrapolation setting once for the
    /// whole batch, and write the values into `out`.
    pub fn batch_interpolate_into(&self, points: &[[T; 1]], out: &mut [T]) -> (r: Result<(), InterpolateError>)
        requires
            self.ready(),
            self.extrapolate is Wrap ==> batch_wrap_ready(self.data, views(points@)),
        ensures
            final(out)@.len() == old(out)@.len(),
            old(out)@.len() != points@.len() ==> (r matches Err(
                InterpolateError::OutputLength { expected, found },
            ) && expected == points@.len() && found == old(out)@.len() && final(out)@ == old(out)@),
            old(out)@.len() == points@.len() && ordered::<T>() && self.data.valid() ==> batch_into_outcome(
                self.data,
                self.strategy,
                self.extrapolate,
                views(points@),
                r,
                old(out)@,
                final(out)@,
            ),
    {
        crate::extrapolate::batch_interpolate_into(&self.data, &self.strategy, &self.extrapolate, points, out)
    }

    /// Interpolate at each of `points`, resolving the extrapolation setting once for the
    /// whole batch.
    pub fn batch_interpolate(&self, points: &[[T; 1]]) -> (r: Result<Vec<T>, InterpolateError>)
        requires
            self.ready(),
            self.extrapolate is Wrap ==> batch_wrap_ready(self.data, views(points@)),
        ensures
            r matches Ok(v) ==> v@.len() == points@.len(),
            ordered::<T>() && self.data.valid() ==> batch_vec_outcome(
                self.data,
                self.strategy,
                self.extrapolate,
                points@,
                r,
            ),
    {
        let mut out: Vec<T> = Vec::new();
        let mut i: usize = 0;
        while i < points.len()
            invariant
                i <= points@.len(),
                out@.len() == i,
            decreases points@.len() - i,
        {
            out.push(points[0][0]);
            i = i + 1;
        }
        let ghost before = out@;
        let r = self.batch_interpolate_into(points, out.as_mut_slice());
        assert(before.len() == points@.len() && out@.len() == points@.len());
        match r {
            Ok(()) => Ok(out),
            Err(e) => Err(e),
        }
    }

    /// Batched [`Self::interpolate_fast`], writing into `out`.
    pub fn batch_interpolate_fast_into(&self, points: &[[T; 1]], out: &mut [T])
        requires
            self.ready(),
            ordered::<T>(),
            self.data.valid(),
            old(out)@.len() == points@.len(),
            forall|i: int| 0 <= i < points@.len() ==> self.strategy.interpolation(self.data, (#[trigger] points@[i])@) is Ok,
        ensures
            final(out)@.len() == points@.len(),
            forall|i: int| 0 <= i < points@.len() ==> self.strategy.interpolation(self.data, (#[trigger] points@[i])@) == Ok::<T, InterpolateError>(final(out)@[i]),
    {
        let r = self.strategy.batch_interpolate_into(&self.data, points, out);
        if r.is_err() {
            let _unused: () = vstd::pervasive::unreached();
        }
    }

    /// Batched [`Self::interpolate_fast`].
    pub fn batch_interpolate_fast(&self, points: &[[T; 1]]) -> (r: Vec<T>)
        requires
            self.ready(),
            ordered::<T>(),
            self.data.valid(),
            forall|i: int| 0 <= i < points@.len() ==> self.strategy.interpolation(self.data, (#[trigger] points@[i])@) is Ok,
        ensures
            r@.len() == points@.len(),
            forall|i: int| 0 <= i < points@.len() ==> self.strategy.interpolation(self.data, (#[trigger] points@[i])@) == Ok::<T, InterpolateError>(r@[i]),
    {
        let mut out: Vec<T> = Vec::new();
        let mut i: usize = 0;
        while i < points.len()
            invariant
                i <= points@.len(),
                out@.len() == i,
            decreases points@.len() - i,
        {
            out.push(points[0][0]);
            i = i + 1;
        }
        self.batch_interpolate_fast_into(points, out.as_mut_slice());
        out
    }

    /// View the interpolator: a borrow of the same interpolator.
    pub fn view(&self) -> (r: &Self)
        ensures
            *r == *self,
    {
        self
    }

    /// Turn the interpolator into its owned form; its data is owned already.
    pub fn into_owned(self) -> (r: Self)
        ensures
            r == self,
    {
        self
    }
}

/// 2-D interpolator: data, strategy and extrapolation setting.
#[derive(Debug, Clone, PartialEq)]
pub struct Interp2DBase<T, S> {
    /// Interpolator data.
    pub data: InterpData2DBase<T>,
    /// Interpolation strategy.
    pub strategy: S,
    /// Extrapolation setting.
    pub extrapolate: Extrapolate<T>,
}

/// 2-D interpolator (owned data).
pub type Interp2D<T, S> = Interp2DBase<T, S>;

impl<T: PartialOrd + Copy + Add<Output = T> + Sub<Output = T> + Rem<Output = T>, S: Strategy<T, Vec<Vec<T>>, 2>> Interp2DBase<T, S> {
    /// The data is shaped, the strategy accepts it, and the extrapolation setting suits
    /// the strategy: what interpolating relies on, and what `new` establishes.
    pub open spec fn ready(&self) -> bool {
        &&& self.data.shaped()
        &&& self.strategy.validation(self.data) is Ok
        &&& extrapolate_validation(self.extrapolate, self.strategy.extrapolates()) is Ok
    }

    /// What constructing from `data` reports: the data's validation error, then an
    /// unsupported extrapolation setting, then the strategy's validation error, then its
    /// initialization outcome.
    pub open spec fn construction(data: InterpData2DBase<T>, strategy: S, extrapolate: Extrapolate<T>) -> Result<(), ValidateError> {
        construction_outcome(data, strategy, extrapolate)
    }

    /// What validating reports: an unsupported extrapolation setting, then the data's
    /// validation error, then the strategy's.
    pub open spec fn validation(&self) -> Result<(), ValidateError> {
        validation_outcome(self.data, self.strategy, self.extrapolate)
    }

    /// Construct and validate a 2-D interpolator, initializing its strategy.
    pub fn new(x: Vec<T>, y: Vec<T>, f_xy: Vec<Vec<T>>, strategy: S, extrapolate: Extrapolate<T>) -> (r: Result<Self, ValidateError>)
        ensures
            r matches Ok(it) ==> it.data == InterpData2DBase::from_parts(x, y, f_xy) && it.strategy
                == strategy.initialized(it.data).0 && it.extrapolate == extrapolate && it.ready(),
            obeys_order::<T>() ==> match r {
                Ok(_) => Self::construction(InterpData2DBase::from_parts(x, y, f_xy), strategy, extrapolate) is Ok,
                Err(e) => Self::construction(InterpData2DBase::from_parts(x, y, f_xy), strategy, extrapolate) == Err::<(), ValidateError>(e),
            },
    {
        let data = match InterpData2DBase::new(x, y, f_xy) {
            Ok(d) => d,
            Err(e) => {
                return Err(e);
            },
        };
        let mut interpolator = Interp2DBase { data, strategy, extrapolate };
        match interpolator.validate_extrapolate(&interpolator.extrapolate) {
            Ok(()) => {},
            Err(e) => {
                return Err(e);
            },
        }
        match interpolator.validate_strategy() {
            Ok(()) => {},
            Err(e) => {
                return Err(e);
            },
        }
        match interpolator.init_strategy() {
            Ok(()) => Ok(interpolator),
            Err(e) => Err(e),
        }
    }

    /// Interpolator dimensionality: `2`.
    pub fn ndim(&self) -> (r: usize)
        ensures
            r == 2,
    {
        2
    }

    /// Check that `extrapolate` suits the current strategy: only `Enable` can be
    /// refused, by a strategy that does not allow extrapolation.
    pub fn validate_extrapolate(&self, extrapolate: &Extrapolate<T>) -> (r: Result<(), ValidateError>)
        ensures
            r == extrapolate_validation(*extrapolate, self.strategy.extrapolates()),
    {
        check_extrapolate(extrapolate, self.strategy.allow_extrapolate())
    }

    /// Re-run the strategy's validation against the current data.
    pub fn validate_strategy(&self) -> (r: Result<(), ValidateError>)
        ensures
            r == self.strategy.validation(self.data),
    {
        self.strategy.validate(&self.data)
    }

    /// Re-run the strategy's initialization against the current data.
    pub fn init_strategy(&mut self) -> (r: Result<(), ValidateError>)
        ensures
            final(self).data == old(self).data,
            final(self).extrapolate == old(self).extrapolate,
            (final(self).strategy, r) == old(self).strategy.initialized(old(self).data),
            final(self).strategy.extrapolates() == old(self).strategy.extrapolates(),
            r is Ok && old(self).strategy.validation(old(self).data) is Ok ==> final(self).strategy.validation(final(self).data) is Ok,
    {
        self.strategy.init(&self.data)
    }

    /// Validate the extrapolation setting, the data, and the strategy, in that order.
    pub fn validate(&self) -> (r: Result<(), ValidateError>)
        ensures
            extrapolate_validation(self.extrapolate, self.strategy.extrapolates()) is Err ==> r == self.validation(),
            obeys_order::<T>() ==> r == self.validation(),
            r is Ok ==> self.ready(),
    {
        match self.validate_extrapolate(&self.extrapolate) {
            Ok(()) => {},
            Err(e) => {
                return Err(e);
            },
        }
        match self.data.validate() {
            Ok(()) => {},
            Err(e) => {
                return Err(e);
            },
        }
        self.validate_strategy()
    }

    /// Set the extrapolation setting, refusing one the strategy does not allow.
    pub fn set_extrapolate(&mut self, extrapolate: Extrapolate<T>) -> (r: Result<(), ValidateError>)
        ensures
            r == extrapolate_validation(extrapolate, old(self).strategy.extrapolates()),
            final(self).data == old(self).data,
            final(self).strategy == old(self).strategy,
            final(self).extrapolate == (if r is Ok { extrapolate } else { old(self).extrapolate }),
    {
        match self.validate_extrapolate(&extrapolate) {
            Ok(()) => {},
            Err(e) => {
                return Err(e);
            },
        }
        self.extrapolate = extrapolate;
        Ok(())
    }

    /// Replace the strategy, then check the extrapolation setting and the new strategy
    /// against the data and initialize it. The new strategy stays in place even when a
    /// check fails.
    pub fn set_strategy(&mut self, strategy: S) -> (r: Result<(), ValidateError>)
        ensures
            final(self).data == old(self).data,
            final(self).extrapolate == old(self).extrapolate,
            extrapolate_validation(old(self).extrapolate, strategy.extrapolates()) is Err ==> r
                == extrapolate_validation(old(self).extrapolate, strategy.extrapolates())
                && final(self).strategy == strategy,
            extrapolate_validation(old(self).extrapolate, strategy.extrapolates()) is Ok && strategy.validation(old(self).data) is Err ==> r
                == strategy.validation(old(self).data) && final(self).strategy == strategy,
            extrapolate_validation(old(self).extrapolate, strategy.extrapolates()) is Ok && strategy.validation(old(self).data) is Ok ==> (
                final(self).strategy, r) == strategy.initialized(old(self).data),
            r is Ok && old(self).data.shaped() ==> final(self).ready(),
    {
        self.strategy = strategy;
        match self.validate_extrapolate(&self.extrapolate) {
            Ok(()) => {},
            Err(e) => {
                return Err(e);
            },
        }
        match self.validate_strategy() {
            Ok(()) => {},
            Err(e) => {
                return Err(e);
            },
        }
        self.init_strategy()
    }

    /// Interpolate at `point`, resolving the extrapolation setting on every axis the
    /// point leaves the grid.
    pub fn interpolate(&self, point: &[T; 2]) -> (r: Result<T, InterpolateError>)
        requires
            self.ready(),
            self.extrapolate is Wrap ==> self.data.wrap_ready(point@),
        ensures
            ordered::<T>() && self.data.valid() ==> interpolate_outcome(
                self.data,
                self.strategy,
                self.extrapolate,
                point@,
                r,
            ),
    {
        crate::extrapolate::interpolate(&self.data, &self.strategy, &self.extrapolate, point)
    }

    /// Interpolate without the bounds check and extrapolation handling, for points the
    /// caller knows the strategy evaluates.
    pub fn interpolate_fast(&self, point: &[T; 2]) -> (r: T)
        requires
            self.ready(),
            ordered::<T>(),
            self.data.valid(),
            self.strategy.interpolation(self.data, point@) is Ok,
        ensures
            self.strategy.interpolation(self.data, point@) == Ok::<T, InterpolateError>(r),
    {
        match self.strategy.interpolate(&self.data, point) {
            Ok(v) => v,
            Err(_) => vstd::pervasive::unreached(),
        }
    }

    /// Interpolate at each of `points`, resolving the extrapolation setting once for the
    /// whole batch, and write the values into `out`.
    pub fn batch_interpolate_into(&self, points: &[[T; 2]], out: &mut [T]) -> (r: Result<(), InterpolateError>)
        requires
            self.ready(),
            self.extrapolate is Wrap ==> batch_wrap_ready(self.data, views(points@)),
        ensures
            final(out)@.len() == old(out)@.len(),
            old(out)@.len() != points@.len() ==> (r matches Err(
                InterpolateError::OutputLength { expected, found },
            ) && expected == points@.len() && found == old(out)@.len() && final(out)@ == old(out)@),
            old(out)@.len() == points@.len() && ordered::<T>() && self.data.valid() ==> batch_into_outcome(
                self.data,
                self.strategy,
                self.extrapolate,
                views(points@),
                r,
                old(out)@,
                final(out)@,
            ),
    {
        crate::extrapolate::batch_interpolate_into(&self.data, &self.strategy, &self.extrapolate, points, out)
    }

    /// Interpolate at each of `points`, resolving the extrapolation setting once for the
    /// whole batch.
    pub fn batch_interpolate(&self, points: &[[T; 2]]) -> (r: Result<Vec<T>, InterpolateError>)
        requires
            self.ready(),
            self.extrapolate is Wrap ==> batch_wrap_ready(self.data, views(points@)),
        ensures
            r matches Ok(v) ==> v@.len() == points@.len(),
            ordered::<T>() && self.data.valid() ==> batch_vec_outcome(
                self.data,
                self.strategy,
                self.extrapolate,
                points@,
                r,
            ),
    {
        let mut out: Vec<T> = Vec::new();
        let mut i: usize = 0;
        while i < points.len()
            invariant
                i <= points@.len(),
                out@.len() == i,
            decreases points@.len() - i,
        {
            out.push(points[0][0]);
            i = i + 1;
        }
        let ghost before = out@;
        let r = self.batch_interpolate_into(points, out.as_mut_slice());
        assert(before.len() == points@.len() && out@.len() == points@.len());
        match r {
            Ok(()) => Ok(out),
            Err(e) => Err(e),
        }
    }

    /// Batched [`Self::interpolate_fast`], writing into `out`.
    pub fn batch_interpolate_fast_into(&self, points: &[[T; 2]], out: &mut [T])
        requires
            self.ready(),
            ordered::<T>(),
            self.data.valid(),
            old(out)@.len() == points@.len(),
            forall|i: int| 0 <= i < points@.len() ==> self.strategy.interpolation(self.data, (#[trigger] points@[i])@) is Ok,
        ensures
            final(out)@.len() == points@.len(),
            forall|i: int| 0 <= i < points@.len() ==> self.strategy.interpolation(self.data, (#[trigger] points@[i])@) == Ok::<T, InterpolateError>(final(out)@[i]),
    {
        let r = self.strategy.batch_interpolate_into(&self.data, points, out);
        if r.is_err() {
            let _unused: () = vstd::pervasive::unreached();
        }
    }

    /// Batched [`Self::interpolate_fast`].
    pub fn batch_interpolate_fast(&self, points: &[[T; 2]]) -> (r: Vec<T>)
        requires
            self.ready(),
            ordered::<T>(),
            self.data.valid(),
            forall|i: int| 0 <= i < points@.len() ==> self.strategy.interpolation(self.data, (#[trigger] points@[i])@) is Ok,
        ensures
            r@.len() == points@.len(),
            forall|i: int| 0 <= i < points@.len() ==> self.strategy.interpolation(self.data, (#[trigger] points@[i])@) == Ok::<T, InterpolateError>(r@[i]),
    {
        let mut out: Vec<T> = Vec::new();
        let mut i: usize = 0;
        while i < points.len()
            invariant
                i <= points@.len(),
                out@.len() == i,
            decreases points@.len() - i,
        {
            out.push(points[0][0]);
            i = i + 1;
        }
        self.batch_interpolate_fast_into(points, out.as_mut_slice());
        out
    }

    /// View the interpolator: a borrow of the same interpolator.
    pub fn view(&self) -> (r: &Self)
        ensures
            *r == *self,
    {
        self
    }

    /// Turn the interpolator into its owned form; its data is owned already.
    pub fn into_owned(self) -> (r: Self)
        ensures
            r == self,
    {
        self
    }
}

/// 3-D interpolator: data, strategy and extrapolation setting.
#[derive(Debug, Clone, PartialEq)]
pub struct Interp3DBase<T, S> {
    /// Interpolator data.
    pub data: InterpData3DBase<T>,
    /// Interpolation strategy.
    pub strategy: S,
    /// Extrapolation setting.
    pub extrapolate: Extrapolate<T>,
}

/// 3-D interpolator (owned data).
pub type Interp3D<T, S> = Interp3DBase<T, S>;

impl<T: PartialOrd + Copy + Add<Output = T> + Sub<Output = T> + Rem<Output = T>, S: Strategy<T, Vec<Vec<Vec<T>>>, 3>> Interp3DBase<T, S> {
    /// The data is shaped, the strategy accepts it, and the extrapolation setting suits
    /// the strategy: what interpolating relies on, and what `new` establishes.
    pub open spec fn ready(&self) -> bool {
        &&& self.data.shaped()
        &&& self.strategy.validation(self.data) is Ok
        &&& extrapolate_validation(self.extrapolate, self.strategy.extrapolates()) is Ok
    }

    /// What constructing from `data` reports: the data's validation error, then an
    /// unsupported extrapolation setting, then the strategy's validation error, then its
    /// initialization outcome.
    pub open spec fn construction(data: InterpData3DBase<T>, strategy: S, extrapolate: Extrapolate<T>) -> Result<(), ValidateError> {
        construction_outcome(data, strategy, extrapolate)
    }

    /// What validating reports: an unsupported extrapolation setting, then the data's
    /// validation error, then the strategy's.
    pub open spec fn validation(&self) -> Result<(), ValidateError> {
        validation_outcome(self.data, self.strategy, self.extrapolate)
    }

    /// Construct and validate a 3-D interpolator, initializing its strategy.
    pub fn new(x: Vec<T>, y: Vec<T>, z: Vec<T>, f_xyz: Vec<Vec<Vec<T>>>, strategy: S, extrapolate: Extrapolate<T>) -> (r: Result<Self, ValidateError>)
        ensures
            r matches Ok(it) ==> it.data == InterpData3DBase::from_parts(x, y, z, f_xyz) && it.strategy
                == strategy.initialized(it.data).0 && it.extrapolate == extrapolate && it.ready(),
            obeys_order::<T>() ==> match r {
                Ok(_) => Self::construction(InterpData3DBase::from_parts(x, y, z, f_xyz), strategy, extrapolate) is Ok,
                Err(e) => Self::construction(InterpData3DBase::from_parts(x, y, z, f_xyz), strategy, extrapolate) == Err::<(), ValidateError>(e),
            },
    {
        let data = match InterpData3DBase::new(x, y, z, f_xyz) {
            Ok(d) => d,
            Err(e) => {
                return Err(e);
            },
        };
        let mut interpolator = Interp3DBase { data, strategy, extrapolate };
        match interpolator.validate_extrapolate(&interpolator.extrapolate) {
            Ok(()) => {},
            Err(e) => {
                return Err(e);
            },
        }
        match interpolator.validate_strategy() {
            Ok(()) => {},
            Err(e) => {
                return Err(e);
            },
        }
        match interpolator.init_strategy() {
            Ok(()) => Ok(interpolator),
            Err(e) => Err(e),
        }
    }

    /// Interpolator dimensionality: `3`.
    pub fn ndim(&self) -> (r: usize)
        ensures
            r == 3,
    {
        3
    }

    /// Check that `extrapolate` suits the current strategy: only `Enable` can be
    /// refused, by a strategy that does not allow extrapolation.
    pub fn validate_extrapolate(&self, extrapolate: &Extrapolate<T>) -> (r: Result<(), ValidateError>)
        ensures
            r == extrapolate_validation(*extrapolate, self.strategy.extrapolates()),
    {
        check_extrapolate(extrapolate, self.strategy.allow_extrapolate())
    }

    /// Re-run the strategy's validation against the current data.
    pub fn validate_strategy(&self) -> (r: Result<(), ValidateError>)
        ensures
            r == self.strategy.validation(self.data),
    {
        self.strategy.validate(&self.data)
    }

    /// Re-run the strategy's initialization against the current data.
    pub fn init_strategy(&mut self) -> (r: Result<(), ValidateError>)
        ensures
            final(self).data == old(self).data,
            final(self).extrapolate == old(self).extrapolate,
            (final(self).strategy, r) == old(self).strategy.initialized(old(self).data),
            final(self).strategy.extrapolates() == old(self).strategy.extrapolates(),
            r is Ok && old(self).strategy.validation(old(self).data) is Ok ==> final(self).strategy.validation(final(self).data) is Ok,
    {
        self.strategy.init(&self.data)
    }

    /// Validate the extrapolation setting, the data, and the strategy, in that order.
    pub fn validate(&self) -> (r: Result<(), ValidateError>)
        ensures
            extrapolate_validation(self.extrapolate, self.strategy.extrapolates()) is Err ==> r == self.validation(),
            obeys_order::<T>() ==> r == self.validation(),
            r is Ok ==> self.ready(),
    {
        match self.validate_extrapolate(&self.extrapolate) {
            Ok(()) => {},
            Err(e) => {
                return Err(e);
            },
        }
        match self.data.validate() {
            Ok(()) => {},
            Err(e) => {
                return Err(e);
            },
        }
        self.validate_strategy()
    }

    /// Set the extrapolation setting, refusing one the strategy does not allow.
    pub fn set_extrapolate(&mut self, extrapolate: Extrapolate<T>) -> (r: Result<(), ValidateError>)
        ensures
            r == extrapolate_validation(extrapolate, old(self).strategy.extrapolates()),
            final(self).data == old(self).data,
            final(self).strategy == old(self).strategy,
            final(self).extrapolate == (if r is Ok { extrapolate } else { old(self).extrapolate }),
    {
        match self.validate_extrapolate(&extrapolate) {
            Ok(()) => {},
            Err(e) => {
                return Err(e);
            },
        }
        self.extrapolate = extrapolate;
        Ok(())
    }

    /// Replace the strategy, then check the extrapolation setting and the new strategy
    /// against the data and initialize it. The new strategy stays in place even when a
    /// check fails.
    pub fn set_strategy(&mut self, strategy: S) -> (r: Result<(), ValidateError>)
        ensures
            final(self).data == old(self).data,
            final(self).extrapolate == old(self).extrapolate,
            extrapolate_validation(old(self).extrapolate, strategy.extrapolates()) is Err ==> r
                == extrapolate_validation(old(self).extrapolate, strategy.extrapolates())
                && final(self).strategy == strategy,
            extrapolate_validation(old(self).extrapolate, strategy.extrapolates()) is Ok && strategy.validation(old(self).data) is Err ==> r
                == strategy.validation(old(self).data) && final(self).strategy == strategy,
            extrapolate_validation(old(self).extrapolate, strategy.extrapolates()) is Ok && strategy.validation(old(self).data) is Ok ==> (
                final(self).strategy, r) == strategy.initialized(old(self).data),
            r is Ok && old(self).data.shaped() ==> final(self).ready(),
    {
        self.strategy = strategy;
        match self.validate_extrapolate(&self.extrapolate) {
            Ok(()) => {},
            Err(e) => {
                return Err(e);
            },
        }
        match self.validate_strategy() {
            Ok(()) => {},
            Err(e) => {
                return Err(e);
            },
        }
        self.init_strategy()
    }

    /// Interpolate at `point`, resolving the extrapolation setting on every axis the
    /// point leaves the grid.
    pub fn interpolate(&self, point: &[T; 3]) -> (r: Result<T, InterpolateError>)
        requires
            self.ready(),
            self.extrapolate is Wrap ==> self.data.wrap_ready(point@),
        ensures
            ordered::<T>() && self.data.valid() ==> interpolate_outcome(
                self.data,
                self.strategy,
                self.extrapolate,
                point@,
                r,
            ),
    {
        crate::extrapolate::interpolate(&self.data, &self.strategy, &self.extrapolate, point)
    }

    /// Interpolate without the bounds check and extrapolation handling, for points the
    /// caller knows the strategy evaluates.
    pub fn interpolate_fast(&self, point: &[T; 3]) -> (r: T)
        requires
            self.ready(),
            ordered::<T>(),
            self.data.valid(),
            self.strategy.interpolation(self.data, point@) is Ok,
        ensures
            self.strategy.interpolation(self.data, point@) == Ok::<T, InterpolateError>(r),
    {
        match self.strategy.interpolate(&self.data, point) {
            Ok(v) => v,
            Err(_) => vstd::pervasive::unreached(),
        }
    }

    /// Interpolate at each of `points`, resolving the extrapolation setting once for the
    /// whole batch, and write the values into `out`.
    pub fn batch_interpolate_into(&self, points: &[[T; 3]], out: &mut [T]) -> (r: Result<(), InterpolateError>)
        requires
            self.ready(),
            self.extrapolate is Wrap ==> batch_wrap_ready(self.data, views(points@)),
        ensures
            final(out)@.len() == old(out)@.len(),
            old(out)@.len() != points@.len() ==> (r matches Err(
                InterpolateError::OutputLength { expected, found },
            ) && expected == points@.len() && found == old(out)@.len() && final(out)@ == old(out)@),
            old(out)@.len() == points@.len() && ordered::<T>() && self.data.valid() ==> batch_into_outcome(
                self.data,
                self.strategy,
                self.extrapolate,
                views(points@),
                r,
                old(out)@,
                final(out)@,
            ),
    {
        crate::extrapolate::batch_interpolate_into(&self.data, &self.strategy, &self.extrapolate, points, out)
    }

    /// Interpolate at each of `points`, resolving the extrapolation setting once for the
    /// whole batch.
    pub fn batch_interpolate(&self, points: &[[T; 3]]) -> (r: Result<Vec<T>, InterpolateError>)
        requires
            self.ready(),
            self.extrapolate is Wrap ==> batch_wrap_ready(self.data, views(points@)),
        ensures
            r matches Ok(v) ==> v@.len() == points@.len(),
            ordered::<T>() && self.data.valid() ==> batch_vec_outcome(
                self.data,
                self.strategy,
                self.extrapolate,
                points@,
                r,
            ),
    {
        let mut out: Vec<T> = Vec::new();
        let mut i: usize = 0;
        while i < points.len()
            invariant
                i <= points@.len(),
                out@.len() == i,
            decreases points@.len() - i,
        {
            out.push(points[0][0]);
            i = i + 1;
        }
        let ghost before = out@;
        let r = self.batch_interpolate_into(points, out.as_mut_slice());
        assert(before.len() == points@.len() && out@.len() == points@.len());
        match r {
            Ok(()) => Ok(out),
            Err(e) => Err(e),
        }
    }

    /// Batched [`Self::interpolate_fast`], writing into `out`.
    pub fn batch_interpolate_fast_into(&self, points: &[[T; 3]], out: &mut [T])
        requires
            self.ready(),
            ordered::<T>(),
            self.data.valid(),
            old(out)@.len() == points@.len(),
            forall|i: int| 0 <= i < points@.len() ==> self.strategy.interpolation(self.data, (#[trigger] points@[i])@) is Ok,
        ensures
            final(out)@.len() == points@.len(),
            forall|i: int| 0 <= i < points@.len() ==> self.strategy.interpolation(self.data, (#[trigger] points@[i])@) == Ok::<T, InterpolateError>(final(out)@[i]),
    {
        let r = self.strategy.batch_interpolate_into(&self.data, points, out);
        if r.is_err() {
            let _unused: () = vstd::pervasive::unreached();
        }
    }

    /// Batched [`Self::interpolate_fast`].
    pub fn batch_interpolate_fast(&self, points: &[[T; 3]]) -> (r: Vec<T>)
        requires
            self.ready(),
            ordered::<T>(),
            self.data.valid(),
            forall|i: int| 0 <= i < points@.len() ==> self.strategy.interpolation(self.data, (#[trigger] points@[i])@) is Ok,
        ensures
            r@.len() == points@.len(),
            forall|i: int| 0 <= i < points@.len() ==> self.strategy.interpolation(self.data, (#[trigger] points@[i])@) == Ok::<T, InterpolateError>(r@[i]),
    {
        let mut out: Vec<T> = Vec::new();
        let mut i: usize = 0;
        while i < points.len()
            invariant
                i <= points@.len(),
                out@.len() == i,
            decreases points@.len() - i,
        {
            out.push(points[0][0]);
            i = i + 1;
        }
        self.batch_interpolate_fast_into(points, out.as_mut_slice());
        out
    }

    /// View the interpolator: a borrow of the same interpolator.
    pub fn view(&self) -> (r: &Self)
        ensures
            *r == *self,
    {
        self
    }

    /// Turn the interpolator into its owned form; its data is owned already.
    pub fn into_owned(self) -> (r: Self)
        ensures
            r == self,
    {
        self
    }
}

} // verus!
