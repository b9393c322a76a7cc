//! The interface the interpolators of every dimensionality share, over points whose
//! length is checked when they are given.

use vstd::prelude::*;
use core::ops::{Add, Rem, Sub};
use crate::error::{InterpolateError, ValidateError, WrongLengthAt};
use crate::extrapolate::{batch_into_outcome, interpolate_outcome, views, Extrapolate};
use crate::interp::{batch_vec_outcome, extrapolate_validation, Interp0D, Interp1DBase, Interp2DBase, Interp3DBase};
use crate::order::{obeys_order, ordered};
use crate::points::{length_failures, lemma_length_failures_empty, slice_views, to_fixed_point, to_fixed_points};
use crate::strategy::Strategy;

verus! {

/// An interpolator of values of type `T` at points whose length is checked when they
/// are given, so that interpolators of different dimensionality can be used alike.
/// Its specification functions say what each method reports.
pub trait Interpolator<T>: Sized {
    /// The number of coordinates a point has.
    spec fn dims(&self) -> nat;

    /// What interpolating relies on: the interpolator is as construction leaves it.
    spec fn usable(&self) -> bool;

    /// Interpolating can take `point`, of `dims()` coordinates: wrapping it, when the
    /// extrapolation setting wraps, is defined.
    spec fn accepts(&self, point: Seq<T>) -> bool;

    /// Interpolating a batch can take each of `points` that has `dims()` coordinates.
    spec fn accepts_all(&self, points: Seq<&[T]>) -> bool;

    /// Every one of `points` has `dims()` coordinates and its unchecked interpolation is
    /// defined.
    spec fn fast_all(&self, points: Seq<&[T]>) -> bool;

    /// `r` is what interpolating at `point`, of `dims()` coordinates, reports.
    spec fn interpolates(&self, point: Seq<T>, r: Result<T, InterpolateError>) -> bool;

    /// What the unchecked interpolation at `point`, of `dims()` coordinates, returns,
    /// where it is defined.
    spec fn fast_value(&self, point: Seq<T>) -> Option<T>;

    /// `out` holds, point by point, what the unchecked interpolation at each of
    /// `points` returns.
    spec fn fast_filled(&self, points: Seq<&[T]>, out: Seq<T>) -> bool;

    /// `r` is what interpolating at each of `points` into an output slice that held
    /// `before` reports, and `after` what the slice holds afterwards.
    spec fn batch_interpolates(
        &self,
        points: Seq<&[T]>,
        r: Result<(), InterpolateError>,
        before: Seq<T>,
        after: Seq<T>,
    ) -> bool;

    /// `r` is what interpolating at each of `points` reports, with the values on success.
    spec fn batch_vec(&self, points: Seq<&[T]>, r: Result<Vec<T>, InterpolateError>) -> bool;

    /// `r` is what validating reports.
    spec fn validates(&self, r: Result<(), ValidateError>) -> bool;

    /// Setting `extrapolate` reports `r` and leaves the interpolator as `after`.
    spec fn sets_extrapolate(&self, extrapolate: Extrapolate<T>, r: Result<(), ValidateError>, after: Self) -> bool;

    /// Interpolator dimensionality.
    fn ndim(&self) -> (r: usize)
        ensures
            r == self.dims(),
    ;

    /// Validate the interpolator.
    fn validate(&self) -> (r: Result<(), ValidateError>)
        ensures
            self.validates(r),
    ;

    /// Interpolate at `point`, which must have `ndim()` coordinates.
    fn interpolate(&self, point: &[T]) -> (r: Result<T, InterpolateError>)
        requires
            self.usable(),
            point@.len() == self.dims() ==> self.accepts(point@),
        ensures
            point@.len() != self.dims() ==> (r matches Err(InterpolateError::PointLength { expected, failures })
                && expected == self.dims() && failures@ == seq![WrongLengthAt { index: 0, found: point@.len() as usize }]),
            point@.len() == self.dims() ==> self.interpolates(point@, r),
    ;

    /// Set the extrapolation setting, checking that it is allowed.
    fn set_extrapolate(&mut self, extrapolate: Extrapolate<T>) -> (r: Result<(), ValidateError>)
        ensures
            old(self).sets_extrapolate(extrapolate, r, *final(self)),
    ;

    /// Interpolate without the bounds check and extrapolation handling, for points the
    /// caller knows the interpolator evaluates.
    fn interpolate_fast(&self, point: &[T]) -> (r: T)
        requires
            self.usable(),
            point@.len() == self.dims(),
            self.fast_value(point@) is Some,
        ensures
            self.fast_value(point@) == Some(r),
    ;

    /// Interpolate at each of `points`, writing the values into `out`.
    fn batch_interpolate_into(&self, points: &[&[T]], out: &mut [T]) -> (r: Result<(), InterpolateError>)
        requires
            self.usable(),
            self.accepts_all(points@),
        ensures
            final(out)@.len() == old(out)@.len(),
            self.batch_interpolates(points@, r, old(out)@, final(out)@),
    ;

    /// Batched [`Interpolator::interpolate_fast`], writing into `out`.
    fn batch_interpolate_fast_into(&self, points: &[&[T]], out: &mut [T])
        requires
            self.usable(),
            old(out)@.len() == points@.len(),
            self.fast_all(points@),
        ensures
            final(out)@.len() == points@.len(),
            self.fast_filled(points@, final(out)@),
    ;

    /// Interpolate at each of `points`.
    fn batch_interpolate(&self, points: &[&[T]]) -> (r: Result<Vec<T>, InterpolateError>)
        requires
            self.usable(),
            self.accepts_all(points@),
        ensures
            self.batch_vec(points@, r),
    ;

    /// Batched [`Interpolator::interpolate_fast`].
    fn batch_interpolate_fast(&self, points: &[&[T]]) -> (r: Vec<T>)
        requires
            self.usable(),
            self.fast_all(points@),
        ensures
            r@.len() == points@.len(),
            self.fast_filled(points@, r@),
    ;
}

/// What a batch reports for the constant interpolator of `value`: every point must be
/// empty, and the first one that is not ends the batch with its length error, after
/// the slots before it have been filled with `value`.
pub open spec fn constant_batch<T>(
    value: T,
    points: Seq<&[T]>,
    r: Result<(), InterpolateError>,
    before: Seq<T>,
    after: Seq<T>,
) -> bool {
    match r {
        Ok(_) => (forall|i: int| 0 <= i < points.len() ==> (#[trigger] points[i])@.len() == 0) && after.len()
            == points.len() && (forall|i: int| 0 <= i < after.len() ==> #[trigger] after[i] == value),
        Err(e) => exists|k: int|
            0 <= k < points.len() && (forall|i: int| 0 <= i < k ==> (#[trigger] points[i])@.len() == 0) && points[k]@.len()
                != 0 && (e matches InterpolateError::PointLength { expected, failures } && expected == 0 && failures@
                == seq![WrongLengthAt { index: 0, found: points[k]@.len() as usize }]) && after.len() == before.len()
                && (forall|i: int| 0 <= i < k ==> #[trigger] after[i] == value) && (forall|i: int|
                k <= i < after.len() ==> #[trigger] after[i] == before[i]),
    }
}

impl<T: Copy> Interpolator<T> for Interp0D<T> {
    open spec fn dims(&self) -> nat {
        0
    }

    open spec fn usable(&self) -> bool {
        true
    }

    open spec fn accepts(&self, point: Seq<T>) -> bool {
        true
    }

    open spec fn accepts_all(&self, points: Seq<&[T]>) -> bool {
        true
    }

    open spec fn fast_all(&self, points: Seq<&[T]>) -> bool {
        forall|i: int| 0 <= i < points.len() ==> (#[trigger] points[i])@.len() == 0
    }

    open spec fn interpolates(&self, point: Seq<T>, r: Result<T, InterpolateError>) -> bool {
        r == Ok::<T, InterpolateError>(self.0)
    }

    open spec fn fast_value(&self, point: Seq<T>) -> Option<T> {
        Some(self.0)
    }

    open spec fn fast_filled(&self, points: Seq<&[T]>, out: Seq<T>) -> bool {
        out.len() == points.len() && forall|i: int| 0 <= i < out.len() ==> #[trigger] out[i] == self.0
    }

    open spec fn batch_interpolates(
        &self,
        points: Seq<&[T]>,
        r: Result<(), InterpolateError>,
        before: Seq<T>,
        after: Seq<T>,
    ) -> bool {
        if before.len() != points.len() {
            &&& r matches Err(InterpolateError::OutputLength { expected, found }) && expected == points.len() && found
                == before.len()
            &&& after == before
        } else {
            constant_batch(self.0, points, r, before, after)
        }
    }

    open spec fn batch_vec(&self, points: Seq<&[T]>, r: Result<Vec<T>, InterpolateError>) -> bool {
        match r {
            Ok(v) => (forall|i: int| 0 <= i < points.len() ==> (#[trigger] points[i])@.len() == 0) && v@.len()
                == points.len() && (forall|i: int| 0 <= i < v@.len() ==> #[trigger] v@[i] == self.0),
            Err(e) => exists|k: int|
                0 <= k < points.len() && (forall|i: int| 0 <= i < k ==> (#[trigger] points[i])@.len() == 0)
                    && points[k]@.len() != 0 && (e matches InterpolateError::PointLength { expected, failures }
                    && expected == 0 && failures@ == seq![WrongLengthAt { index: 0, found: points[k]@.len() as usize }]),
        }
    }

    open spec fn validates(&self, r: Result<(), ValidateError>) -> bool {
        r is Ok
    }

    open spec fn sets_extrapolate(&self, extrapolate: Extrapolate<T>, r: Result<(), ValidateError>, after: Self) -> bool {
        r is Ok && after == *self
    }

    /// Returns `0`.
    fn ndim(&self) -> (r: usize) {
        0
    }

    /// Always succeeds.
    fn validate(&self) -> (r: Result<(), ValidateError>) {
        Ok(())
    }

    /// The contained value for the empty point; any other point has the wrong length.
    fn interpolate(&self, point: &[T]) -> (r: Result<T, InterpolateError>) {
        if point.len() != 0 {
            return Err(
                InterpolateError::PointLength {
                    expected: 0,
                    failures: vec![WrongLengthAt::new(0, point.len())],
                },
            );
        }
        Ok(self.0)
    }

    /// Extrapolation has no meaning without axes; every setting is accepted.
    fn set_extrapolate(&mut self, extrapolate: Extrapolate<T>) -> (r: Result<(), ValidateError>) {
        Ok(())
    }

    /// The contained value.
    fn interpolate_fast(&self, point: &[T]) -> (r: T) {
        self.0
    }

    /// The contained value for each empty point, stopping at the first point that is
    /// not empty.
    fn batch_interpolate_into(&self, points: &[&[T]], out: &mut [T]) -> (r: Result<(), InterpolateError>) {
        if out.len() != points.len() {
            return Err(InterpolateError::OutputLength { expected: points.len(), found: out.len() });
        }
        let mut i: usize = 0;
        while i < points.len()
            invariant
                i <= points@.len(),
                out@.len() == points@.len(),
                old(out)@.len() == points@.len(),
                forall|k: int| 0 <= k < i ==> (#[trigger] points@[k])@.len() == 0,
                forall|k: int| 0 <= k < i ==> #[trigger] out@[k] == self.0,
                forall|k: int| i <= k < out@.len() ==> #[trigger] out@[k] == old(out)@[k],
            decreases points@.len() - i,
        {
            match self.interpolate(points[i]) {
                Ok(v) => {
                    out[i] = v;
                },
                Err(e) => {
                    assert(constant_batch(self.0, points@, Err::<(), InterpolateError>(e), old(out)@, out@));
                    return Err(e);
                },
            }
            i = i + 1;
        }
        Ok(())
    }

    /// The contained value for each point.
    fn batch_interpolate_fast_into(&self, points: &[&[T]], out: &mut [T]) {
        let mut i: usize = 0;
        while i < out.len()
            invariant
                i <= out@.len(),
                out@.len() == points@.len(),
                forall|k: int| 0 <= k < i ==> #[trigger] out@[k] == self.0,
            decreases out@.len() - i,
        {
            out[i] = self.0;
            i = i + 1;
        }
    }

    /// The contained value for each empty point, stopping at the first point that is
    /// not empty.
    fn batch_interpolate(&self, points: &[&[T]]) -> (r: Result<Vec<T>, InterpolateError>) {
        let mut out: Vec<T> = Vec::new();
        let mut i: usize = 0;
        while i < points.len()
            invariant
                i <= points@.len(),
                out@.len() == i,
                forall|k: int| 0 <= k < i ==> (#[trigger] points@[k])@.len() == 0,
                forall|k: int| 0 <= k < i ==> #[trigger] out@[k] == self.0,
            decreases points@.len() - i,
        {
            match self.interpolate(points[i]) {
                Ok(v) => {
                    out.push(v);
                },
                Err(e) => {
                    return Err(e);
                },
            }
            i = i + 1;
        }
        Ok(out)
    }

    /// The contained value for each point.
    fn batch_interpolate_fast(&self, points: &[&[T]]) -> (r: Vec<T>) {
        let mut out: Vec<T> = Vec::new();
        let mut i: usize = 0;
        while i < points.len()
            invariant
                i <= points@.len(),
                out@.len() == i,
                forall|k: int| 0 <= k < i ==> #[trigger] out@[k] == self.0,
            decreases points@.len() - i,
        {
            out.push(self.0);
            i = i + 1;
        }
        out
    }
}

impl<T: PartialOrd + Copy + Add<Output = T> + Sub<Output = T> + Rem<Output = T>, S: Strategy<T, Vec<T>, 1>> Interpolator<
    T,
> for Interp1DBase<T, S> {
    open spec fn dims(&self) -> nat {
        1
    }

    open spec fn usable(&self) -> bool {
        self.ready()
    }

    open spec fn accepts(&self, point: Seq<T>) -> bool {
        self.extrapolate is Wrap ==> self.data.wrap_ready(point)
    }

    open spec fn accepts_all(&self, points: Seq<&[T]>) -> bool {
        forall|i: int| 0 <= i < points.len() && (#[trigger] points[i])@.len() == 1 ==> self.accepts(points[i]@)
    }

    open spec fn fast_all(&self, points: Seq<&[T]>) -> bool {
        forall|i: int|
            0 <= i < points.len() ==> (#[trigger] points[i])@.len() == 1 && self.fast_value(points[i]@) is Some
    }

    open spec fn interpolates(&self, point: Seq<T>, r: Result<T, InterpolateError>) -> bool {
        ordered::<T>() && self.data.valid() ==> interpolate_outcome(self.data, self.strategy, self.extrapolate, point, r)
    }

    open spec fn fast_value(&self, point: Seq<T>) -> Option<T> {
        match self.strategy.interpolation(self.data, point) {
            Ok(v) => if ordered::<T>() && self.data.valid() {
                Some(v)
            } else {
                None
            },
            Err(_) => None,
        }
    }

    open spec fn fast_filled(&self, points: Seq<&[T]>, out: Seq<T>) -> bool {
        &&& out.len() == points.len()
        &&& forall|i: int|
            0 <= i < points.len() ==> self.strategy.interpolation(self.data, (#[trigger] points[i])@) == Ok::<
                T,
                InterpolateError,
            >(out[i])
    }

    open spec fn batch_interpolates(
        &self,
        points: Seq<&[T]>,
        r: Result<(), InterpolateError>,
        before: Seq<T>,
        after: Seq<T>,
    ) -> bool {
        let failures = length_failures(slice_views(points), 1, points.len() as int);
        if failures.len() > 0 {
            &&& r matches Err(InterpolateError::PointLength { expected, failures: f }) && expected == 1 && f@ == failures
            &&& after == before
        } else if before.len() != points.len() {
            &&& r matches Err(InterpolateError::OutputLength { expected, found }) && expected == points.len() && found
                == before.len()
            &&& after == before
        } else {
            ordered::<T>() && self.data.valid() ==> batch_into_outcome(
                self.data,
                self.strategy,
                self.extrapolate,
                slice_views(points),
                r,
                before,
                after,
            )
        }
    }

    open spec fn batch_vec(&self, points: Seq<&[T]>, r: Result<Vec<T>, InterpolateError>) -> bool {
        let failures = length_failures(slice_views(points), 1, points.len() as int);
        if failures.len() > 0 {
            r matches Err(InterpolateError::PointLength { expected, failures: f }) && expected == 1 && f@ == failures
        } else {
            &&& r matches Ok(v) ==> v@.len() == points.len()
            &&& ordered::<T>() && self.data.valid() ==> exists|raw: Seq<[T; 1]>|
                #![trigger views(raw)]
                views(raw) == slice_views(points) && batch_vec_outcome(
                    self.data,
                    self.strategy,
                    self.extrapolate,
                    raw,
                    r,
                )
        }
    }

    open spec fn validates(&self, r: Result<(), ValidateError>) -> bool {
        &&& extrapolate_validation(self.extrapolate, self.strategy.extrapolates()) is Err ==> r == self.validation()
        &&& obeys_order::<T>() ==> r == self.validation()
        &&& r is Ok ==> self.ready()
    }

    open spec fn sets_extrapolate(&self, extrapolate: Extrapolate<T>, r: Result<(), ValidateError>, after: Self) -> bool {
        &&& r == extrapolate_validation(extrapolate, self.strategy.extrapolates())
        &&& after.data == self.data
        &&& after.strategy == self.strategy
        &&& after.extrapolate == (if r is Ok {
            extrapolate
        } else {
            self.extrapolate
        })
    }

    /// Returns `1`.
    fn ndim(&self) -> (r: usize) {
        1
    }

    /// Validate the extrapolation setting, the data, and the strategy, in that order.
    fn validate(&self) -> (r: Result<(), ValidateError>) {
        Interp1DBase::validate(self)
    }

    /// Interpolate at `point` once it has been checked to have 1 coordinates.
    fn interpolate(&self, point: &[T]) -> (r: Result<T, InterpolateError>) {
        match to_fixed_point::<T, 1>(point) {
            Ok(p) => Interp1DBase::interpolate(self, &p),
            Err(e) => Err(e),
        }
    }

    /// Set the extrapolation setting, refusing one the strategy does not allow.
    fn set_extrapolate(&mut self, extrapolate: Extrapolate<T>) -> (r: Result<(), ValidateError>) {
        Interp1DBase::set_extrapolate(self, extrapolate)
    }

    /// Interpolate without the bounds check and extrapolation handling.
    fn interpolate_fast(&self, point: &[T]) -> (r: T) {
        match to_fixed_point::<T, 1>(point) {
            Ok(p) => Interp1DBase::interpolate_fast(self, &p),
            Err(_) => vstd::pervasive::unreached(),
        }
    }

    /// Interpolate at each of `points` once every one has been checked to have 1
    /// coordinates, resolving the extrapolation setting once for the whole batch.
    fn batch_interpolate_into(&self, points: &[&[T]], out: &mut [T]) -> (r: Result<(), InterpolateError>) {
        let ghost q = slice_views(points@);
        proof {
            lemma_length_failures_empty(q, 1, q.len() as int);
        }
        let converted = match to_fixed_points::<T, 1>(points) {
            Ok(c) => c,
            Err(e) => {
                proof {
                    let i = choose|i: int| 0 <= i < points@.len() && (#[trigger] points@[i])@.len() != 1;
                    assert(q[i] == points@[i]@);
                }
                return Err(e);
            },
        };
        proof {
            assert(views(converted@) =~= q);
            assert forall|i: int| 0 <= i < q.len() implies #[trigger] q[i].len() == 1 by {
                assert(q[i] == points@[i]@);
            }
        }
        Interp1DBase::batch_interpolate_into(self, converted.as_slice(), out)
    }

    /// Batched [`Interpolator::interpolate_fast`], writing into `out`.
    fn batch_interpolate_fast_into(&self, points: &[&[T]], out: &mut [T]) {
        if points.len() == 0 {
            return;
        }
        assert(self.fast_value(points@[0]@) is Some);
        let converted = match to_fixed_points::<T, 1>(points) {
            Ok(c) => c,
            Err(_) => {
                let _unused: () = vstd::pervasive::unreached();
                return;
            },
        };
        assert forall|i: int| 0 <= i < converted@.len() implies self.strategy.interpolation(
            self.data,
            (#[trigger] converted@[i])@,
        ) is Ok by {
            assert(converted@[i]@ == points@[i]@);
            assert(self.fast_value(points@[i]@) is Some);
        }
        Interp1DBase::batch_interpolate_fast_into(self, converted.as_slice(), out);
        assert forall|i: int| 0 <= i < points@.len() implies self.strategy.interpolation(
            self.data,
            (#[trigger] points@[i])@,
        ) == Ok::<T, InterpolateError>(out@[i]) by {
            assert(converted@[i]@ == points@[i]@);
        }
    }

    /// Interpolate at each of `points` once every one has been checked to have 1
    /// coordinates.
    fn batch_interpolate(&self, points: &[&[T]]) -> (r: Result<Vec<T>, InterpolateError>) {
        let ghost q = slice_views(points@);
        proof {
            lemma_length_failures_empty(q, 1, q.len() as int);
        }
        let converted = match to_fixed_points::<T, 1>(points) {
            Ok(c) => c,
            Err(e) => {
                proof {
                    let i = choose|i: int| 0 <= i < points@.len() && (#[trigger] points@[i])@.len() != 1;
                    assert(q[i] == points@[i]@);
                }
                return Err(e);
            },
        };
        proof {
            assert(views(converted@) =~= q);
            assert forall|i: int| 0 <= i < q.len() implies #[trigger] q[i].len() == 1 by {
                assert(q[i] == points@[i]@);
            }
        }
        Interp1DBase::batch_interpolate(self, converted.as_slice())
    }

    /// Batched [`Interpolator::interpolate_fast`].
    fn batch_interpolate_fast(&self, points: &[&[T]]) -> (r: Vec<T>) {
        if points.len() == 0 {
            return Vec::new();
        }
        assert(self.fast_value(points@[0]@) is Some);
        let converted = match to_fixed_points::<T, 1>(points) {
            Ok(c) => c,
            Err(_) => {
                return vstd::pervasive::unreached();
            },
        };
        assert forall|i: int| 0 <= i < converted@.len() implies self.strategy.interpolation(
            self.data,
            (#[trigger] converted@[i])@,
        ) is Ok by {
            assert(converted@[i]@ == points@[i]@);
            assert(self.fast_value(points@[i]@) is Some);
        }
        let r = Interp1DBase::batch_interpolate_fast(self, converted.as_slice());
        assert forall|i: int| 0 <= i < points@.len() implies self.strategy.interpolation(
            self.data,
            (#[trigger] points@[i])@,
        ) == Ok::<T, InterpolateError>(r@[i]) by {
            assert(converted@[i]@ == points@[i]@);
        }
        r
    }
}

impl<T: PartialOrd + Copy + Add<Output = T> + Sub<Output = T> + Rem<Output = T>, S: Strategy<T, Vec<Vec<T>>, 2>> Interpolator<
    T,
> for Interp2DBase<T, S> {
    open spec fn dims(&self) -> nat {
        2
    }

    open spec fn usable(&self) -> bool {
        self.ready()
    }

    open spec fn accepts(&self, point: Seq<T>) -> bool {
        self.extrapolate is Wrap ==> self.data.wrap_ready(point)
    }

    open spec fn accepts_all(&self, points: Seq<&[T]>) -> bool {
        forall|i: int| 0 <= i < points.len() && (#[trigger] points[i])@.len() == 2 ==> self.accepts(points[i]@)
    }

    open spec fn fast_all(&self, points: Seq<&[T]>) -> bool {
        forall|i: int|
            0 <= i < points.len() ==> (#[trigger] points[i])@.len() == 2 && self.fast_value(points[i]@) is Some
    }

    open spec fn interpolates(&self, point: Seq<T>, r: Result<T, InterpolateError>) -> bool {
        ordered::<T>() && self.data.valid() ==> interpolate_outcome(self.data, self.strategy, self.extrapolate, point, r)
    }

    open spec fn fast_value(&self, point: Seq<T>) -> Option<T> {
        match self.strategy.interpolation(self.data, point) {
            Ok(v) => if ordered::<T>() && self.data.valid() {
                Some(v)
            } else {
                None
            },
            Err(_) => None,
        }
    }

    open spec fn fast_filled(&self, points: Seq<&[T]>, out: Seq<T>) -> bool {
        &&& out.len() == points.len()
        &&& forall|i: int|
            0 <= i < points.len() ==> self.strategy.interpolation(self.data, (#[trigger] points[i])@) == Ok::<
                T,
                InterpolateError,
            >(out[i])
    }

    open spec fn batch_interpolates(
        &self,
        points: Seq<&[T]>,
        r: Result<(), InterpolateError>,
        before: Seq<T>,
        after: Seq<T>,
    ) -> bool {
        let failures = length_failures(slice_views(points), 2, points.len() as int);
        if failures.len() > 0 {
            &&& r matches Err(InterpolateError::PointLength { expected, failures: f }) && expected == 2 && f@ == failures
            &&& after == before
        } else if before.len() != points.len() {
            &&& r matches Err(InterpolateError::OutputLength { expected, found }) && expected == points.len() && found
                == before.len()
            &&& after == before
        } else {
            ordered::<T>() && self.data.valid() ==> batch_into_outcome(
                self.data,
                self.strategy,
                self.extrapolate,
                slice_views(points),
                r,
                before,
                after,
            )
        }
    }

    open spec fn batch_vec(&self, points: Seq<&[T]>, r: Result<Vec<T>, InterpolateError>) -> bool {
        let failures = length_failures(slice_views(points), 2, points.len() as int);
        if failures.len() > 0 {
            r matches Err(InterpolateError::PointLength { expected, failures: f }) && expected == 2 && f@ == failures
        } else {
            &&& r matches Ok(v) ==> v@.len() == points.len()
            &&& ordered::<T>() && self.data.valid() ==> exists|raw: Seq<[T; 2]>|
                #![trigger views(raw)]
                views(raw) == slice_views(points) && batch_vec_outcome(
                    self.data,
                    self.strategy,
                    self.extrapolate,
                    raw,
                    r,
                )
        }
    }

    open spec fn validates(&self, r: Result<(), ValidateError>) -> bool {
        &&& extrapolate_validation(self.extrapolate, self.strategy.extrapolates()) is Err ==> r == self.validation()
        &&& obeys_order::<T>() ==> r == self.validation()
        &&& r is Ok ==> self.ready()
    }

    open spec fn sets_extrapolate(&self, extrapolate: Extrapolate<T>, r: Result<(), ValidateError>, after: Self) -> bool {
        &&& r == extrapolate_validation(extrapolate, self.strategy.extrapolates())
        &&& after.data == self.data
        &&& after.strategy == self.strategy
        &&& after.extrapolate == (if r is Ok {
            extrapolate
        } else {
            self.extrapolate
        })
    }

    /// Returns `2`.
    fn ndim(&self) -> (r: usize) {
        2
    }

    /// Validate the extrapolation setting, the data, and the strategy, in that order.
    fn validate(&self) -> (r: Result<(), ValidateError>) {
        Interp2DBase::validate(self)
    }

    /// Interpolate at `point` once it has been checked to have 2 coordinates.
    fn interpolate(&self, point: &[T]) -> (r: Result<T, InterpolateError>) {
        match to_fixed_point::<T, 2>(point) {
            Ok(p) => Interp2DBase::interpolate(self, &p),
            Err(e) => Err(e),
        }
    }

    /// Set the extrapolation setting, refusing one the strategy does not allow.
    fn set_extrapolate(&mut self, extrapolate: Extrapolate<T>) -> (r: Result<(), ValidateError>) {
        Interp2DBase::set_extrapolate(self, extrapolate)
    }

    /// Interpolate without the bounds check and extrapolation handling.
    fn interpolate_fast(&self, point: &[T]) -> (r: T) {
        match to_fixed_point::<T, 2>(point) {
            Ok(p) => Interp2DBase::interpolate_fast(self, &p),
            Err(_) => vstd::pervasive::unreached(),
        }
    }

    /// Interpolate at each of `points` once every one has been checked to have 2
    /// coordinates, resolving the extrapolation setting once for the whole batch.
    fn batch_interpolate_into(&self, points: &[&[T]], out: &mut [T]) -> (r: Result<(), InterpolateError>) {
        let ghost q = slice_views(points@);
        proof {
            lemma_length_failures_empty(q, 2, q.len() as int);
        }
        let converted = match to_fixed_points::<T, 2>(points) {
            Ok(c) => c,
            Err(e) => {
                proof {
                    let i = choose|i: int| 0 <= i < points@.len() && (#[trigger] points@[i])@.len() != 2;
                    assert(q[i] == points@[i]@);
                }
                return Err(e);
            },
        };
        proof {
            assert(views(converted@) =~= q);
            assert forall|i: int| 0 <= i < q.len() implies #[trigger] q[i].len() == 2 by {
                assert(q[i] == points@[i]@);
            }
        }
        Interp2DBase::batch_interpolate_into(self, converted.as_slice(), out)
    }

    /// Batched [`Interpolator::interpolate_fast`], writing into `out`.
    fn batch_interpolate_fast_into(&self, points: &[&[T]], out: &mut [T]) {
        if points.len() == 0 {
            return;
        }
        assert(self.fast_value(points@[0]@) is Some);
        let converted = match to_fixed_points::<T, 2>(points) {
            Ok(c) => c,
            Err(_) => {
                let _unused: () = vstd::pervasive::unreached();
                return;
            },
        };
        assert forall|i: int| 0 <= i < converted@.len() implies self.strategy.interpolation(
            self.data,
            (#[trigger] converted@[i])@,
        ) is Ok by {
            assert(converted@[i]@ == points@[i]@);
            assert(self.fast_value(points@[i]@) is Some);
        }
        Interp2DBase::batch_interpolate_fast_into(self, converted.as_slice(), out);
        assert forall|i: int| 0 <= i < points@.len() implies self.strategy.interpolation(
            self.data,
            (#[trigger] points@[i])@,
        ) == Ok::<T, InterpolateError>(out@[i]) by {
            assert(converted@[i]@ == points@[i]@);
        }
    }

    /// Interpolate at each of `points` once every one has been checked to have 2
    /// coordinates.
    fn batch_interpolate(&self, points: &[&[T]]) -> (r: Result<Vec<T>, InterpolateError>) {
        let ghost q = slice_views(points@);
        proof {
            lemma_length_failures_empty(q, 2, q.len() as int);
        }
        let converted = match to_fixed_points::<T, 2>(points) {
            Ok(c) => c,
            Err(e) => {
                proof {
                    let i = choose|i: int| 0 <= i < points@.len() && (#[trigger] points@[i])@.len() != 2;
                    assert(q[i] == points@[i]@);
                }
                return Err(e);
            },
        };
        proof {
            assert(views(converted@) =~= q);
            assert forall|i: int| 0 <= i < q.len() implies #[trigger] q[i].len() == 2 by {
                assert(q[i] == points@[i]@);
            }
        }
        Interp2DBase::batch_interpolate(self, converted.as_slice())
    }

    /// Batched [`Interpolator::interpolate_fast`].
    fn batch_interpolate_fast(&self, points: &[&[T]]) -> (r: Vec<T>) {
        if points.len() == 0 {
            return Vec::new();
        }
        assert(self.fast_value(points@[0]@) is Some);
        let converted = match to_fixed_points::<T, 2>(points) {
            Ok(c) => c,
            Err(_) => {
                return vstd::pervasive::unreached();
            },
        };
        assert forall|i: int| 0 <= i < converted@.len() implies self.strategy.interpolation(
            self.data,
            (#[trigger] converted@[i])@,
        ) is Ok by {
            assert(converted@[i]@ == points@[i]@);
            assert(self.fast_value(points@[i]@) is Some);
        }
        let r = Interp2DBase::batch_interpolate_fast(self, converted.as_slice());
        assert forall|i: int| 0 <= i < points@.len() implies self.strategy.interpolation(
            self.data,
            (#[trigger] points@[i])@,
        ) == Ok::<T, InterpolateError>(r@[i]) by {
            assert(converted@[i]@ == points@[i]@);
        }
        r
    }
}

impl<T: PartialOrd + Copy + Add<Output = T> + Sub<Output = T> + Rem<Output = T>, S: Strategy<T, Vec<Vec<Vec<T>>>, 3>> Interpolator<
    T,
> for Interp3DBase<T, S> {
    open spec fn dims(&self) -> nat {
        3
    }

    open spec fn usable(&self) -> bool {
        self.ready()
    }

    open spec fn accepts(&self, point: Seq<T>) -> bool {
        self.extrapolate is Wrap ==> self.data.wrap_ready(point)
    }

    open spec fn accepts_all(&self, points: Seq<&[T]>) -> bool {
        forall|i: int| 0 <= i < points.len() && (#[trigger] points[i])@.len() == 3 ==> self.accepts(points[i]@)
    }

    open spec fn fast_all(&self, points: Seq<&[T]>) -> bool {
        forall|i: int|
            0 <= i < points.len() ==> (#[trigger] points[i])@.len() == 3 && self.fast_value(points[i]@) is Some
    }

    open spec fn interpolates(&self, point: Seq<T>, r: Result<T, InterpolateError>) -> bool {
        ordered::<T>() && self.data.valid() ==> interpolate_outcome(self.data, self.strategy, self.extrapolate, point, r)
    }

    open spec fn fast_value(&self, point: Seq<T>) -> Option<T> {
        match self.strategy.interpolation(self.data, point) {
            Ok(v) => if ordered::<T>() && self.data.valid() {
                Some(v)
            } else {
                None
            },
            Err(_) => None,
        }
    }

    open spec fn fast_filled(&self, points: Seq<&[T]>, out: Seq<T>) -> bool {
        &&& out.len() == points.len()
        &&& forall|i: int|
            0 <= i < points.len() ==> self.strategy.interpolation(self.data, (#[trigger] points[i])@) == Ok::<
                T,
                InterpolateError,
            >(out[i])
    }

    open spec fn batch_interpolates(
        &self,
        points: Seq<&[T]>,
        r: Result<(), InterpolateError>,
        before: Seq<T>,
        after: Seq<T>,
    ) -> bool {
        let failures = length_failures(slice_views(points), 3, points.len() as int);
        if failures.len() > 0 {
            &&& r matches Err(InterpolateError::PointLength { expected, failures: f }) && expected == 3 && f@ == failures
            &&& after == before
        } else if before.len() != points.len() {
            &&& r matches Err(InterpolateError::OutputLength { expected, found }) && expected == points.len() && found
                == before.len()
            &&& after == before
        } else {
            ordered::<T>() && self.data.valid() ==> batch_into_outcome(
                self.data,
                self.strategy,
                self.extrapolate,
                slice_views(points),
                r,
                before,
                after,
            )
        }
    }

    open spec fn batch_vec(&self, points: Seq<&[T]>, r: Result<Vec<T>, InterpolateError>) -> bool {
        let failures = length_failures(slice_views(points), 3, points.len() as int);
        if failures.len() > 0 {
            r matches Err(InterpolateError::PointLength { expected, failures: f }) && expected == 3 && f@ == failures
        } else {
            &&& r matches Ok(v) ==> v@.len() == points.len()
            &&& ordered::<T>() && self.data.valid() ==> exists|raw: Seq<[T; 3]>|
                #![trigger views(raw)]
                views(raw) == slice_views(points) && batch_vec_outcome(
                    self.data,
                    self.strategy,
                    self.extrapolate,
                    raw,
                    r,
                )
        }
    }

    open spec fn validates(&self, r: Result<(), ValidateError>) -> bool {
        &&& extrapolate_validation(self.extrapolate, self.strategy.extrapolates()) is Err ==> r == self.validation()
        &&& obeys_order::<T>() ==> r == self.validation()
        &&& r is Ok ==> self.ready()
    }

    open spec fn sets_extrapolate(&self, extrapolate: Extrapolate<T>, r: Result<(), ValidateError>, after: Self) -> bool {
        &&& r == extrapolate_validation(extrapolate, self.strategy.extrapolates())
        &&& after.data == self.data
        &&& after.strategy == self.strategy
        &&& after.extrapolate == (if r is Ok {
            extrapolate
        } else {
            self.extrapolate
        })
    }

    /// Returns `3`.
    fn ndim(&self) -> (r: usize) {
        3
    }

    /// Validate the extrapolation setting, the data, and the strategy, in that order.
    fn validate(&self) -> (r: Result<(), ValidateError>) {
        Interp3DBase::validate(self)
    }

    /// Interpolate at `point` once it has been checked to have 3 coordinates.
    fn interpolate(&self, point: &[T]) -> (r: Result<T, InterpolateError>) {
        match to_fixed_point::<T, 3>(point) {
            Ok(p) => Interp3DBase::interpolate(self, &p),
            Err(e) => Err(e),
        }
    }

    /// Set the extrapolation setting, refusing one the strategy does not allow.
    fn set_extrapolate(&mut self, extrapolate: Extrapolate<T>) -> (r: Result<(), ValidateError>) {
        Interp3DBase::set_extrapolate(self, extrapolate)
    }

    /// Interpolate without the bounds check and extrapolation handling.
    fn interpolate_fast(&self, point: &[T]) -> (r: T) {
        match to_fixed_point::<T, 3>(point) {
            Ok(p) => Interp3DBase::interpolate_fast(self, &p),
            Err(_) => vstd::pervasive::unreached(),
        }
    }

    /// Interpolate at each of `points` once every one has been checked to have 3
    /// coordinates, resolving the extrapolation setting once for the whole batch.
    fn batch_interpolate_into(&self, points: &[&[T]], out: &mut [T]) -> (r: Result<(), InterpolateError>) {
        let ghost q = slice_views(points@);
        proof {
            lemma_length_failures_empty(q, 3, q.len() as int);
        }
        let converted = match to_fixed_points::<T, 3>(points) {
            Ok(c) => c,
            Err(e) => {
                proof {
                    let i = choose|i: int| 0 <= i < points@.len() && (#[trigger] points@[i])@.len() != 3;
                    assert(q[i] == points@[i]@);
                }
                return Err(e);
            },
        };
        proof {
            assert(views(converted@) =~= q);
            assert forall|i: int| 0 <= i < q.len() implies #[trigger] q[i].len() == 3 by {
                assert(q[i] == points@[i]@);
            }
        }
        Interp3DBase::batch_interpolate_into(self, converted.as_slice(), out)
    }

    /// Batched [`Interpolator::interpolate_fast`], writing into `out`.
    fn batch_interpolate_fast_into(&self, points: &[&[T]], out: &mut [T]) {
        if points.len() == 0 {
            return;
        }
        assert(self.fast_value(points@[0]@) is Some);
        let converted = match to_fixed_points::<T, 3>(points) {
            Ok(c) => c,
            Err(_) => {
                let _unused: () = vstd::pervasive::unreached();
                return;
            },
        };
        assert forall|i: int| 0 <= i < converted@.len() implies self.strategy.interpolation(
            self.data,
            (#[trigger] converted@[i])@,
        ) is Ok by {
            assert(converted@[i]@ == points@[i]@);
            assert(self.fast_value(points@[i]@) is Some);
        }
        Interp3DBase::batch_interpolate_fast_into(self, converted.as_slice(), out);
        assert forall|i: int| 0 <= i < points@.len() implies self.strategy.interpolation(
            self.data,
            (#[trigger] points@[i])@,
        ) == Ok::<T, InterpolateError>(out@[i]) by {
            assert(converted@[i]@ == points@[i]@);
        }
    }

    /// Interpolate at each of `points` once every one has been checked to have 3
    /// coordinates.
    fn batch_interpolate(&self, points: &[&[T]]) -> (r: Result<Vec<T>, InterpolateError>) {
        let ghost q = slice_views(points@);
        proof {
            lemma_length_failures_empty(q, 3, q.len() as int);
        }
        let converted = match to_fixed_points::<T, 3>(points) {
            Ok(c) => c,
            Err(e) => {
                proof {
                    let i = choose|i: int| 0 <= i < points@.len() && (#[trigger] points@[i])@.len() != 3;
                    assert(q[i] == points@[i]@);
                }
                return Err(e);
            },
        };
        proof {
            assert(views(converted@) =~= q);
            assert forall|i: int| 0 <= i < q.len() implies #[trigger] q[i].len() == 3 by {
                assert(q[i] == points@[i]@);
            }
        }
        Interp3DBase::batch_interpolate(self, converted.as_slice())
    }

    /// Batched [`Interpolator::interpolate_fast`].
    fn batch_interpolate_fast(&self, points: &[&[T]]) -> (r: Vec<T>) {
        if points.len() == 0 {
            return Vec::new();
        }
        assert(self.fast_value(points@[0]@) is Some);
        let converted = match to_fixed_points::<T, 3>(points) {
            Ok(c) => c,
            Err(_) => {
                return vstd::pervasive::unreached();
            },
        };
        assert forall|i: int| 0 <= i < converted@.len() implies self.strategy.interpolation(
            self.data,
            (#[trigger] converted@[i])@,
        ) is Ok by {
            assert(converted@[i]@ == points@[i]@);
            assert(self.fast_value(points@[i]@) is Some);
        }
        let r = Interp3DBase::batch_interpolate_fast(self, converted.as_slice());
        assert forall|i: int| 0 <= i < points@.len() implies self.strategy.interpolation(
            self.data,
            (#[trigger] points@[i])@,
        ) == Ok::<T, InterpolateError>(r@[i]) by {
            assert(converted@[i]@ == points@[i]@);
        }
        r
    }
}

} // verus!
