//! The N-D interpolator, whose number of axes is known only at run time: the
//! [`StrategyND`] trait with its step and nearest-neighbour strategies, the extrapolation
//! setting resolved over runtime-length points, and [`InterpNDBase`] itself.

use vstd::prelude::*;
use core::ops::{Add, Rem, Sub};
use crate::data_nd::{InterpDataNDBase, ValuesND, lemma_product_grows, product};
use crate::error::{InterpolateError, OutOfBoundsAt, ValidateError, WrongLengthAt};
use crate::extrapolate::Extrapolate;
use crate::interp::{check_extrapolate, extrapolate_validation};
use crate::interpolator::Interpolator;
use crate::points::{length_failures, lemma_length_failures_empty, slice_views};
use crate::order::{
    clamp, clamp_spec, in_range, in_range_exec, obeys_order, ordered, wrap, wrap_defined,
    wrap_spec,
};
use crate::strategy::{
    Integer, Nearest, Step, StepDirection, StepLower, StepUpper, find_nearest, find_step, nearest_index, step_index,
};

verus! {

impl<T: PartialOrd> InterpDataNDBase<T> {
    /// First coordinate of axis `d`.
    pub open spec fn lo(&self, d: int) -> T {
        self.coords(d)[0]
    }

    /// Last coordinate of axis `d`.
    pub open spec fn hi(&self, d: int) -> T {
        self.coords(d).last()
    }

    /// Coordinate `x` lies within the extent of axis `d`.
    pub open spec fn in_axis(&self, d: int, x: T) -> bool {
        in_range(x, self.lo(d), self.hi(d))
    }

    /// `point` lies within the grid on every axis.
    pub open spec fn contains_point(&self, point: Seq<T>) -> bool {
        forall|d: int| 0 <= d < self.dims() ==> #[trigger] self.in_axis(d, point[d])
    }

    /// One entry, tagged with `index`, per axis below `d` on which `point` leaves the
    /// grid, in axis order.
    pub open spec fn out_of_bounds_upto(&self, point: Seq<T>, index: usize, d: int) -> Seq<OutOfBoundsAt>
        decreases d,
    {
        if d <= 0 {
            Seq::empty()
        } else {
            let prev = self.out_of_bounds_upto(point, index, d - 1);
            if self.in_axis(d - 1, point[d - 1]) {
                prev
            } else {
                prev.push(OutOfBoundsAt { index: index, dim: (d - 1) as usize })
            }
        }
    }

    /// The out-of-bounds entries of the first `n` points of a batch, point by point.
    pub open spec fn out_of_bounds_batch(&self, points: Seq<Seq<T>>, n: int) -> Seq<OutOfBoundsAt>
        decreases n,
    {
        if n <= 0 {
            Seq::empty()
        } else {
            self.out_of_bounds_batch(points, n - 1) + self.out_of_bounds_upto(
                points[n - 1],
                (n - 1) as usize,
                self.dims() as int,
            )
        }
    }

    /// `point` with every coordinate clamped into its axis's extent.
    pub open spec fn clamped(&self, point: Seq<T>) -> Seq<T> {
        Seq::new(self.dims(), |d: int| clamp_spec(point[d], self.lo(d), self.hi(d)))
    }

    /// Positions, in order, of the first `n` points that lie within the grid.
    pub open spec fn inbound_positions(&self, points: Seq<Seq<T>>, n: int) -> Seq<int>
        decreases n,
    {
        if n <= 0 {
            Seq::empty()
        } else {
            let prev = self.inbound_positions(points, n - 1);
            if self.contains_point(points[n - 1]) {
                prev.push(n - 1)
            } else {
                prev
            }
        }
    }

    /// No entry is reported below axis `d` exactly when `point` lies within the grid on
    /// those axes.
    pub proof fn lemma_out_of_bounds_upto(&self, point: Seq<T>, index: usize, d: int)
        requires
            0 <= d,
        ensures
            self.out_of_bounds_upto(point, index, d).len() == 0 <==> (forall|k: int|
                0 <= k < d ==> #[trigger] self.in_axis(k, point[k])),
        decreases d,
    {
        if d > 0 {
            self.lemma_out_of_bounds_upto(point, index, d - 1);
        }
    }
}

/// Position, in the values' elements (outermost axis first), of the grid point at
/// position `idx[d]` along each axis `d` of an array of shape `shape`.
pub open spec fn flat_index(shape: Seq<usize>, idx: Seq<int>) -> int
    decreases idx.len(),
{
    if idx.len() == 0 || shape.len() == 0 {
        0
    } else {
        flat_index(shape.drop_last(), idx.drop_last()) * shape.last() + idx.last()
    }
}

/// A position within the extent on every axis has its element within the array.
pub proof fn lemma_flat_bound(shape: Seq<usize>, idx: Seq<int>)
    requires
        shape.len() == idx.len(),
        forall|d: int| 0 <= d < idx.len() ==> 0 <= #[trigger] idx[d] < shape[d],
    ensures
        0 <= flat_index(shape, idx) < product(shape),
    decreases idx.len(),
{
    if idx.len() > 0 {
        let s = shape.drop_last();
        let i = idx.drop_last();
        assert forall|d: int| 0 <= d < i.len() implies 0 <= #[trigger] i[d] < s[d] by {
            assert(i[d] == idx[d] && s[d] == shape[d]);
        }
        lemma_flat_bound(s, i);
        let f = flat_index(s, i);
        let p = product(s) as int;
        let m = shape.last() as int;
        let b = idx.last();
        assert(0 <= b < m);
        assert(0 <= f * m + b < p * m) by (nonlinear_arith)
            requires
                0 <= f < p,
                0 <= b < m,
        ;
    }
}

/// The element at the grid point at position `idx[d]` along each axis `d`.
pub open spec fn value_at<T: PartialOrd>(data: InterpDataNDBase<T>, idx: Seq<int>) -> T {
    data.values.items()[flat_index(data.values.dims(), idx)]
}

/// The element of `data` at grid positions `idx`, which lie within the extents.
fn element_at<T: PartialOrd + Copy>(data: &InterpDataNDBase<T>, idx: &Vec<usize>) -> (r: T)
    requires
        data.shaped(),
        idx@.len() == data.dims(),
        forall|d: int| 0 <= d < idx@.len() ==> #[trigger] idx@[d] < data.values.dims()[d],
    ensures
        r == value_at(*data, idx@.map_values(|i: usize| i as int)),
{
    let ghost shape = data.values.dims();
    let ghost pos = idx@.map_values(|i: usize| i as int);
    let total = data.values.len();
    let dims = data.values.shape();
    let n = idx.len();
    proof {
        assert forall|d: int| 0 <= d < shape.len() implies shape[d] != 0 by {
            assert(idx@[d] < shape[d]);
        }
    }
    let mut flat: usize = 0;
    let mut d: usize = 0;
    while d < n
        invariant
            d <= n,
            n == idx@.len(),
            n == shape.len(),
            dims@ == shape,
            total == product(shape),
            pos == idx@.map_values(|i: usize| i as int),
            forall|k: int| 0 <= k < n ==> #[trigger] idx@[k] < shape[k],
            forall|k: int| 0 <= k < shape.len() ==> shape[k] != 0,
            flat as int == flat_index(shape.take(d as int), pos.take(d as int)),
        decreases n - d,
    {
        let ghost s1 = shape.take(d + 1);
        let ghost i1 = pos.take(d + 1);
        proof {
            assert(s1.drop_last() =~= shape.take(d as int));
            assert(i1.drop_last() =~= pos.take(d as int));
            assert(i1.last() == idx@[d as int] as int);
            assert(flat_index(s1, i1) == flat * shape[d as int] + idx@[d as int]);
            assert forall|k: int| 0 <= k < i1.len() implies 0 <= #[trigger] i1[k] < s1[k] by {
                assert(i1[k] == idx@[k] as int);
            }
            lemma_flat_bound(s1, i1);
            lemma_product_grows(shape, d + 1);
        }
        flat = flat * dims[d] + idx[d];
        d = d + 1;
    }
    proof {
        assert(shape.take(n as int) =~= shape);
        assert(pos.take(n as int) =~= pos);
        assert forall|k: int| 0 <= k < pos.len() implies 0 <= #[trigger] pos[k] < shape[k] by {
            assert(pos[k] == idx@[k] as int);
        }
        lemma_flat_bound(shape, pos);
    }
    let elems = data.values.elems();
    elems[flat]
}

/// An interpolation strategy for data whose number of axes is known only at run time.
///
/// Interpolators resolve their extrapolation setting first and then hand the strategy
/// the point to evaluate. Implement this trait to define a custom strategy; its
/// specification functions say what each method computes.
pub trait StrategyND<T: PartialOrd>: Sized {
    /// Value (or error) of interpolating `data` at `point`.
    spec fn interpolation(&self, data: InterpDataNDBase<T>, point: Seq<T>) -> Result<T, InterpolateError>;

    /// Outcome of checking the strategy's own invariants against `data`.
    spec fn validation(&self, data: InterpDataNDBase<T>) -> Result<(), ValidateError>;

    /// The strategy after precomputing its state for `data`, and the outcome.
    spec fn initialized(&self, data: InterpDataNDBase<T>) -> (Self, Result<(), ValidateError>);

    /// Whether the strategy can evaluate points beyond the grid.
    spec fn extrapolates(&self) -> bool;

    /// Check the strategy's own invariants against `data`.
    fn validate(&self, data: &InterpDataNDBase<T>) -> (r: Result<(), ValidateError>)
        ensures
            r == self.validation(*data),
    ;

    /// Precompute whatever state the strategy caches for `data`. Initializing does not
    /// change whether the strategy extrapolates, and a strategy that accepted `data`
    /// before initializing successfully still accepts it.
    fn init(&mut self, data: &InterpDataNDBase<T>) -> (r: Result<(), ValidateError>)
        ensures
            (*final(self), r) == old(self).initialized(*data),
            final(self).extrapolates() == old(self).extrapolates(),
            r is Ok && old(self).validation(*data) is Ok ==> final(self).validation(*data) is Ok,
    ;

    /// Initializing does not change whether the strategy extrapolates, and a strategy that
    /// accepted `data` and then initialized successfully still accepts it.
    proof fn lemma_initialized(&self, data: InterpDataNDBase<T>)
        ensures
            self.initialized(data).0.extrapolates() == self.extrapolates(),
            self.initialized(data).1 is Ok && self.validation(data) is Ok ==> self.initialized(data).0.validation(
                data,
            ) is Ok,
    ;

    /// Whether `Extrapolate::Enable` may be used with this strategy.
    fn allow_extrapolate(&self) -> (r: bool)
        ensures
            r == self.extrapolates(),
    ;

    /// Interpolate `data` at `point`, which has one coordinate per axis.
    fn interpolate(&self, data: &InterpDataNDBase<T>, point: &[T]) -> (r: Result<T, InterpolateError>)
        requires
            data.shaped(),
            point@.len() == data.dims(),
            self.validation(*data) is Ok,
        ensures
            ordered::<T>() && data.valid() ==> r == self.interpolation(*data, point@),
    ;
}

/// Grid positions of the nearest coordinate to `point` on every axis.
pub open spec fn nearest_positions<T: Integer>(data: InterpDataNDBase<T>, point: Seq<T>) -> Seq<int> {
    Seq::new(data.dims(), |d: int| nearest_index(data.coords(d), point[d]))
}

impl<T: Integer> StrategyND<T> for Nearest {
    open spec fn interpolation(&self, data: InterpDataNDBase<T>, point: Seq<T>) -> Result<T, InterpolateError> {
        Ok(value_at(data, nearest_positions(data, point)))
    }

    open spec fn validation(&self, data: InterpDataNDBase<T>) -> Result<(), ValidateError> {
        Ok(())
    }

    open spec fn initialized(&self, data: InterpDataNDBase<T>) -> (Self, Result<(), ValidateError>) {
        (*self, Ok(()))
    }

    open spec fn extrapolates(&self) -> bool {
        false
    }

    fn validate(&self, data: &InterpDataNDBase<T>) -> (r: Result<(), ValidateError>) {
        Ok(())
    }

    fn init(&mut self, data: &InterpDataNDBase<T>) -> (r: Result<(), ValidateError>) {
        Ok(())
    }

    proof fn lemma_initialized(&self, data: InterpDataNDBase<T>) {
    }

    fn allow_extrapolate(&self) -> (r: bool) {
        false
    }

    fn interpolate(&self, data: &InterpDataNDBase<T>, point: &[T]) -> (r: Result<T, InterpolateError>) {
        let n = data.ndim();
        let mut idx: Vec<usize> = Vec::new();
        let mut d: usize = 0;
        while d < n
            invariant
                d <= n,
                n == data.dims(),
                point@.len() == n,
                data.shaped(),
                idx@.len() == d,
                forall|k: int| 0 <= k < d ==> #[trigger] idx@[k] < data.values.dims()[k],
                ordered::<T>() && data.valid() ==> forall|k: int|
                    0 <= k < d ==> #[trigger] idx@[k] as int == nearest_index(data.coords(k), point@[k]),
            decreases n - d,
        {
            assert(data.coords(d as int).len() >= 2);
            let i = find_nearest(&data.grid[d], point[d]);
            idx.push(i);
            d = d + 1;
        }
        proof {
            if ordered::<T>() && data.valid() {
                assert(idx@.map_values(|i: usize| i as int) =~= nearest_positions(*data, point@));
            }
        }
        Ok(element_at(data, &idx))
    }
}

/// Grid positions reached by stepping in `step`'s direction for each axis from `point`.
pub open spec fn step_positions<T: PartialOrd>(step: Step, data: InterpDataNDBase<T>, point: Seq<T>) -> Seq<int> {
    Seq::new(data.dims(), |d: int| step_index(step.direction(d), data.coords(d), point[d]))
}

impl<T: PartialOrd + Copy> StrategyND<T> for Step {
    open spec fn interpolation(&self, data: InterpDataNDBase<T>, point: Seq<T>) -> Result<T, InterpolateError> {
        Ok(value_at(data, step_positions(*self, data, point)))
    }

    open spec fn validation(&self, data: InterpDataNDBase<T>) -> Result<(), ValidateError> {
        self.len_validation(data.values.dims().len() as usize)
    }

    open spec fn initialized(&self, data: InterpDataNDBase<T>) -> (Self, Result<(), ValidateError>) {
        (*self, Ok(()))
    }

    open spec fn extrapolates(&self) -> bool {
        false
    }

    fn validate(&self, data: &InterpDataNDBase<T>) -> (r: Result<(), ValidateError>) {
        self.validate_len(data.values.ndim())
    }

    fn init(&mut self, data: &InterpDataNDBase<T>) -> (r: Result<(), ValidateError>) {
        Ok(())
    }

    proof fn lemma_initialized(&self, data: InterpDataNDBase<T>) {
    }

    fn allow_extrapolate(&self) -> (r: bool) {
        false
    }

    fn interpolate(&self, data: &InterpDataNDBase<T>, point: &[T]) -> (r: Result<T, InterpolateError>) {
        let n = data.ndim();
        let mut idx: Vec<usize> = Vec::new();
        let mut d: usize = 0;
        while d < n
            invariant
                d <= n,
                n == data.dims(),
                point@.len() == n,
                data.shaped(),
                self.len_validation(n) is Ok,
                idx@.len() == d,
                forall|k: int| 0 <= k < d ==> #[trigger] idx@[k] < data.values.dims()[k],
                ordered::<T>() && data.valid() ==> forall|k: int|
                    0 <= k < d ==> #[trigger] idx@[k] as int == step_index(
                        self.direction(k),
                        data.coords(k),
                        point@[k],
                    ),
            decreases n - d,
        {
            assert(data.coords(d as int).len() >= 2);
            let direction = self.direction_at(d, n);
            let i = find_step(direction, &data.grid[d], &point[d]);
            idx.push(i);
            d = d + 1;
        }
        proof {
            if ordered::<T>() && data.valid() {
                assert(idx@.map_values(|i: usize| i as int) =~= step_positions(*self, *data, point@));
            }
        }
        Ok(element_at(data, &idx))
    }
}

/// Grid positions reached by stepping in `direction` on every axis from `point`.
pub open spec fn uniform_step_positions<T: PartialOrd>(
    direction: StepDirection,
    data: InterpDataNDBase<T>,
    point: Seq<T>,
) -> Seq<int> {
    Seq::new(data.dims(), |d: int| step_index(direction, data.coords(d), point[d]))
}

/// Step in `direction` on every axis of `data` from `point`.
fn step_every_axis<T: PartialOrd + Copy>(data: &InterpDataNDBase<T>, direction: StepDirection, point: &[T]) -> (r: Result<
    T,
    InterpolateError,
>)
    requires
        data.shaped(),
        point@.len() == data.dims(),
    ensures
        ordered::<T>() && data.valid() ==> r == Ok::<T, InterpolateError>(
            value_at(*data, uniform_step_positions(direction, *data, point@)),
        ),
{
    let step = Step::from(direction);
    assert(step.len_validation(data.values.dims().len() as usize) is Ok);
    let r = step.interpolate(data, point);
    proof {
        if ordered::<T>() && data.valid() {
            assert(step_positions(step, *data, point@) =~= uniform_step_positions(direction, *data, point@));
        }
    }
    r
}

impl<T: PartialOrd + Copy> StrategyND<T> for StepLower {
    open spec fn interpolation(&self, data: InterpDataNDBase<T>, point: Seq<T>) -> Result<T, InterpolateError> {
        Ok(value_at(data, uniform_step_positions(StepDirection::Lower, data, point)))
    }

    open spec fn validation(&self, data: InterpDataNDBase<T>) -> Result<(), ValidateError> {
        Ok(())
    }

    open spec fn initialized(&self, data: InterpDataNDBase<T>) -> (Self, Result<(), ValidateError>) {
        (*self, Ok(()))
    }

    open spec fn extrapolates(&self) -> bool {
        false
    }

    fn validate(&self, data: &InterpDataNDBase<T>) -> (r: Result<(), ValidateError>) {
        Ok(())
    }

    fn init(&mut self, data: &InterpDataNDBase<T>) -> (r: Result<(), ValidateError>) {
        Ok(())
    }

    proof fn lemma_initialized(&self, data: InterpDataNDBase<T>) {
    }

    fn allow_extrapolate(&self) -> (r: bool) {
        false
    }

    fn interpolate(&self, data: &InterpDataNDBase<T>, point: &[T]) -> (r: Result<T, InterpolateError>) {
        step_every_axis(data, StepDirection::Lower, point)
    }
}

impl<T: PartialOrd + Copy> StrategyND<T> for StepUpper {
    open spec fn interpolation(&self, data: InterpDataNDBase<T>, point: Seq<T>) -> Result<T, InterpolateError> {
        Ok(value_at(data, uniform_step_positions(StepDirection::Upper, data, point)))
    }

    open spec fn validation(&self, data: InterpDataNDBase<T>) -> Result<(), ValidateError> {
        Ok(())
    }

    open spec fn initialized(&self, data: InterpDataNDBase<T>) -> (Self, Result<(), ValidateError>) {
        (*self, Ok(()))
    }

    open spec fn extrapolates(&self) -> bool {
        false
    }

    fn validate(&self, data: &InterpDataNDBase<T>) -> (r: Result<(), ValidateError>) {
        Ok(())
    }

    fn init(&mut self, data: &InterpDataNDBase<T>) -> (r: Result<(), ValidateError>) {
        Ok(())
    }

    proof fn lemma_initialized(&self, data: InterpDataNDBase<T>) {
    }

    fn allow_extrapolate(&self) -> (r: bool) {
        false
    }

    fn interpolate(&self, data: &InterpDataNDBase<T>, point: &[T]) -> (r: Result<T, InterpolateError>) {
        step_every_axis(data, StepDirection::Upper, point)
    }
}

impl<T: PartialOrd + Add<Output = T> + Sub<Output = T> + Rem<Output = T>> InterpDataNDBase<T> {
    /// `point` with every coordinate wrapped around its axis's extent.
    pub open spec fn wrapped(&self, point: Seq<T>) -> Seq<T> {
        Seq::new(self.dims(), |d: int| wrap_spec(point[d], self.lo(d), self.hi(d)))
    }

    /// `point` wrapped if it lies beyond the grid, and unchanged otherwise.
    pub open spec fn wrapped_if_outside(&self, point: Seq<T>) -> Seq<T> {
        if self.contains_point(point) {
            point
        } else {
            self.wrapped(point)
        }
    }

    /// Wrapping `point`, if it lies beyond the grid, is defined on every axis.
    pub open spec fn wrap_ready(&self, point: Seq<T>) -> bool {
        &&& obeys_order::<T>()
        &&& !self.contains_point(point) ==> forall|d: int|
            0 <= d < self.dims() ==> #[trigger] wrap_defined(point[d], self.lo(d), self.hi(d))
    }
}

/// What interpolating `data` at `point` with `strategy` reports under `extrapolate`: the
/// strategy's value within the grid, and beyond it what the setting says.
pub open spec fn interpolate_nd_outcome<
    T: PartialOrd + Add<Output = T> + Sub<Output = T> + Rem<Output = T>,
    S: StrategyND<T>,
>(
    data: InterpDataNDBase<T>,
    strategy: S,
    extrapolate: Extrapolate<T>,
    point: Seq<T>,
    r: Result<T, InterpolateError>,
) -> bool {
    if data.contains_point(point) {
        r == strategy.interpolation(data, point)
    } else {
        match extrapolate {
            Extrapolate::Enable => r == strategy.interpolation(data, point),
            Extrapolate::Fill(v) => r == Ok::<T, InterpolateError>(v),
            Extrapolate::Clamp => r == strategy.interpolation(data, data.clamped(point)),
            Extrapolate::Wrap => r == strategy.interpolation(data, data.wrapped(point)),
            Extrapolate::Error => (r matches Err(InterpolateError::OutOfBounds(v)) && v@
                == data.out_of_bounds_upto(point, 0, data.dims() as int)),
        }
    }
}

/// What evaluating each of `points` in turn reports: every value in order, or the error
/// of the first point that fails.
pub open spec fn each_outcome<T: PartialOrd, S: StrategyND<T>>(
    s: S,
    data: InterpDataNDBase<T>,
    points: Seq<Seq<T>>,
    r: Result<(), InterpolateError>,
    out: Seq<T>,
) -> bool {
    match r {
        Ok(_) => forall|i: int|
            0 <= i < points.len() ==> s.interpolation(data, #[trigger] points[i]) == Ok::<T, InterpolateError>(
                out[i],
            ),
        Err(e) => exists|k: int|
            0 <= k < points.len() && (forall|i: int| 0 <= i < k ==> s.interpolation(data, #[trigger] points[i]) is Ok)
                && s.interpolation(data, points[k]) == Err::<T, InterpolateError>(e),
    }
}

/// What a batch of points, each with one coordinate per axis, reports under
/// `extrapolate`, with `out` the output slice before (`before`) and after (`after`).
pub open spec fn batch_nd_outcome<
    T: PartialOrd + Add<Output = T> + Sub<Output = T> + Rem<Output = T>,
    S: StrategyND<T>,
>(
    data: InterpDataNDBase<T>,
    strategy: S,
    extrapolate: Extrapolate<T>,
    points: Seq<Seq<T>>,
    r: Result<(), InterpolateError>,
    before: Seq<T>,
    after: Seq<T>,
) -> bool {
    match extrapolate {
        Extrapolate::Enable => each_outcome(strategy, data, points, r, after),
        Extrapolate::Clamp => each_outcome(strategy, data, points.map_values(|p: Seq<T>| data.clamped(p)), r, after),
        Extrapolate::Wrap => each_outcome(
            strategy,
            data,
            points.map_values(|p: Seq<T>| data.wrapped_if_outside(p)),
            r,
            after,
        ),
        Extrapolate::Fill(v) => {
            let inb = data.inbound_positions(points, points.len() as int);
            let sub = inb.map_values(|i: int| points[i]);
            match r {
                Ok(_) => forall|i: int|
                    0 <= i < points.len() ==> if data.contains_point(#[trigger] points[i]) {
                        strategy.interpolation(data, points[i]) == Ok::<T, InterpolateError>(after[i])
                    } else {
                        after[i] == v
                    },
                Err(e) => (forall|i: int| 0 <= i < after.len() ==> #[trigger] after[i] == v) && exists|k: int|
                    0 <= k < sub.len() && (forall|j: int| 0 <= j < k ==> strategy.interpolation(data, #[trigger] sub[j]) is Ok)
                        && strategy.interpolation(data, sub[k]) == Err::<T, InterpolateError>(e),
            }
        },
        Extrapolate::Error => {
            let errs = data.out_of_bounds_batch(points, points.len() as int);
            if errs.len() > 0 {
                (r matches Err(InterpolateError::OutOfBounds(v)) && v@ == errs) && after == before
            } else {
                each_outcome(strategy, data, points, r, after)
            }
        },
    }
}

/// First and last coordinates of axis `d`.
fn axis_bounds<T: PartialOrd + Copy>(data: &InterpDataNDBase<T>, d: usize) -> (r: (T, T))
    requires
        data.shaped(),
        d < data.dims(),
    ensures
        r.0 == data.lo(d as int),
        r.1 == data.hi(d as int),
{
    assert(data.coords(d as int).len() >= 2);
    let g = &data.grid[d];
    (g[0], g[g.len() - 1])
}

/// Is `point` outside the grid on any axis?
fn point_out_of_bounds<T: PartialOrd + Copy>(data: &InterpDataNDBase<T>, point: &[T]) -> (r: bool)
    requires
        data.shaped(),
        point@.len() == data.dims(),
    ensures
        obeys_order::<T>() ==> r == !data.contains_point(point@),
{
    let n = data.ndim();
    let mut d: usize = 0;
    while d < n
        invariant
            data.shaped(),
            n == data.dims(),
            point@.len() == n,
            d <= n,
            obeys_order::<T>() ==> forall|k: int| 0 <= k < d ==> #[trigger] data.in_axis(k, point@[k]),
        decreases n - d,
    {
        let (lo, hi) = axis_bounds(data, d);
        if !in_range_exec(&point[d], &lo, &hi) {
            proof {
                if obeys_order::<T>() {
                    assert(!data.in_axis(d as int, point@[d as int]));
                }
            }
            return true;
        }
        d = d + 1;
    }
    false
}

/// `point` clamped into the grid on every axis.
fn clamp_point<T: PartialOrd + Copy>(data: &InterpDataNDBase<T>, point: &[T]) -> (r: Vec<T>)
    requires
        data.shaped(),
        point@.len() == data.dims(),
    ensures
        r@.len() == point@.len(),
        obeys_order::<T>() ==> r@ == data.clamped(point@),
{
    let n = data.ndim();
    let mut c: Vec<T> = Vec::new();
    let mut d: usize = 0;
    while d < n
        invariant
            data.shaped(),
            n == data.dims(),
            point@.len() == n,
            d <= n,
            c@.len() == d,
            obeys_order::<T>() ==> forall|k: int|
                0 <= k < d ==> c@[k] == #[trigger] clamp_spec(point@[k], data.lo(k), data.hi(k)),
        decreases n - d,
    {
        let (lo, hi) = axis_bounds(data, d);
        c.push(clamp(point[d], lo, hi));
        d = d + 1;
    }
    proof {
        if obeys_order::<T>() {
            assert(c@ =~= data.clamped(point@));
        }
    }
    c
}

/// `point` wrapped around the grid on every axis.
fn wrap_point<T: PartialOrd + Copy + Add<Output = T> + Sub<Output = T> + Rem<Output = T>>(
    data: &InterpDataNDBase<T>,
    point: &[T],
) -> (r: Vec<T>)
    requires
        data.shaped(),
        point@.len() == data.dims(),
        forall|d: int| 0 <= d < data.dims() ==> #[trigger] wrap_defined(point@[d], data.lo(d), data.hi(d)),
    ensures
        r@ == data.wrapped(point@),
{
    let n = data.ndim();
    let mut c: Vec<T> = Vec::new();
    let mut d: usize = 0;
    while d < n
        invariant
            data.shaped(),
            n == data.dims(),
            point@.len() == n,
            d <= n,
            c@.len() == d,
            forall|k: int| 0 <= k < n ==> #[trigger] wrap_defined(point@[k], data.lo(k), data.hi(k)),
            forall|k: int| 0 <= k < d ==> c@[k] == #[trigger] wrap_spec(point@[k], data.lo(k), data.hi(k)),
        decreases n - d,
    {
        let (lo, hi) = axis_bounds(data, d);
        assert(wrap_defined(point@[d as int], data.lo(d as int), data.hi(d as int)));
        c.push(wrap(point[d], lo, hi));
        d = d + 1;
    }
    assert(c@ =~= data.wrapped(point@));
    c
}

/// Interpolate `data` at `point`, which has one coordinate per axis, with `strategy`,
/// resolving `extrapolate` first.
fn interpolate_point<T: PartialOrd + Copy + Add<Output = T> + Sub<Output = T> + Rem<Output = T>, S: StrategyND<T>>(
    data: &InterpDataNDBase<T>,
    strategy: &S,
    extrapolate: &Extrapolate<T>,
    point: &[T],
) -> (r: Result<T, InterpolateError>)
    requires
        data.shaped(),
        point@.len() == data.dims(),
        strategy.validation(*data) is Ok,
        *extrapolate is Wrap ==> data.wrap_ready(point@),
    ensures
        ordered::<T>() && data.valid() ==> interpolate_nd_outcome(*data, *strategy, *extrapolate, point@, r),
{
    let n = data.ndim();
    let mut errors: Vec<OutOfBoundsAt> = Vec::new();
    let mut dim: usize = 0;
    while dim < n
        invariant
            data.shaped(),
            n == data.dims(),
            point@.len() == n,
            strategy.validation(*data) is Ok,
            *extrapolate is Wrap ==> data.wrap_ready(point@),
            dim <= n,
            obeys_order::<T>() && *extrapolate is Error ==> errors@ == data.out_of_bounds_upto(point@, 0, dim as int),
            obeys_order::<T>() && !(*extrapolate is Enable) && !(*extrapolate is Error) ==> forall|k: int|
                0 <= k < dim ==> #[trigger] data.in_axis(k, point@[k]),
            !(*extrapolate is Error) ==> errors@.len() == 0,
        decreases n - dim,
    {
        let (lo, hi) = axis_bounds(data, dim);
        if !in_range_exec(&point[dim], &lo, &hi) {
            proof {
                if obeys_order::<T>() {
                    assert(!data.in_axis(dim as int, point@[dim as int]));
                    assert(!data.contains_point(point@));
                }
            }
            match extrapolate {
                Extrapolate::Enable => {},
                Extrapolate::Fill(value) => {
                    return Ok(*value);
                },
                Extrapolate::Clamp => {
                    let clamped = clamp_point(data, point);
                    return strategy.interpolate(data, clamped.as_slice());
                },
                Extrapolate::Wrap => {
                    let wrapped = wrap_point(data, point);
                    return strategy.interpolate(data, wrapped.as_slice());
                },
                Extrapolate::Error => {
                    errors.push(OutOfBoundsAt::new(0, dim));
                },
            }
        }
        dim = dim + 1;
    }
    proof {
        if obeys_order::<T>() {
            data.lemma_out_of_bounds_upto(point@, 0, n as int);
        }
    }
    if errors.len() > 0 {
        return Err(InterpolateError::OutOfBounds(errors));
    }
    strategy.interpolate(data, point)
}

/// The point the strategy is asked about once `extrapolate` is resolved for a batch: the
/// clamped point for `Clamp`, the wrapped point for `Wrap` when it lies beyond the grid,
/// and the point itself otherwise.
pub open spec fn resolved<T: PartialOrd + Add<Output = T> + Sub<Output = T> + Rem<Output = T>>(
    data: InterpDataNDBase<T>,
    extrapolate: Extrapolate<T>,
    point: Seq<T>,
) -> Seq<T> {
    match extrapolate {
        Extrapolate::Clamp => data.clamped(point),
        Extrapolate::Wrap => data.wrapped_if_outside(point),
        _ => point,
    }
}

/// Interpolate at `point` once `extrapolate`, which is not `Fill`, is resolved for it.
fn resolve_and_interpolate<
    T: PartialOrd + Copy + Add<Output = T> + Sub<Output = T> + Rem<Output = T>,
    S: StrategyND<T>,
>(data: &InterpDataNDBase<T>, strategy: &S, extrapolate: &Extrapolate<T>, point: &[T]) -> (r: Result<
    T,
    InterpolateError,
>)
    requires
        data.shaped(),
        point@.len() == data.dims(),
        strategy.validation(*data) is Ok,
        *extrapolate is Wrap ==> data.wrap_ready(point@),
    ensures
        ordered::<T>() && data.valid() ==> r == strategy.interpolation(*data, resolved(*data, *extrapolate, point@)),
{
    match extrapolate {
        Extrapolate::Clamp => {
            let c = clamp_point(data, point);
            strategy.interpolate(data, c.as_slice())
        },
        Extrapolate::Wrap => {
            if point_out_of_bounds(data, point) {
                let w = wrap_point(data, point);
                strategy.interpolate(data, w.as_slice())
            } else {
                strategy.interpolate(data, point)
            }
        },
        _ => strategy.interpolate(data, point),
    }
}

/// Evaluate each of `points` in turn, after resolving `extrapolate` (not `Fill`) for
/// it, writing the values into `out` and stopping at the first point that fails.
fn eval_each<T: PartialOrd + Copy + Add<Output = T> + Sub<Output = T> + Rem<Output = T>, S: StrategyND<T>>(
    data: &InterpDataNDBase<T>,
    strategy: &S,
    extrapolate: &Extrapolate<T>,
    points: &[&[T]],
    out: &mut [T],
) -> (r: Result<(), InterpolateError>)
    requires
        data.shaped(),
        strategy.validation(*data) is Ok,
        old(out)@.len() == points@.len(),
        forall|i: int| 0 <= i < points@.len() ==> (#[trigger] points@[i])@.len() == data.dims(),
        *extrapolate is Wrap ==> forall|i: int| 0 <= i < points@.len() ==> data.wrap_ready((#[trigger] points@[i])@),
    ensures
        final(out)@.len() == old(out)@.len(),
        ordered::<T>() && data.valid() ==> each_outcome(
            *strategy,
            *data,
            slice_views(points@).map_values(|p: Seq<T>| resolved(*data, *extrapolate, p)),
            r,
            final(out)@,
        ),
{
    let ghost rq = slice_views(points@).map_values(|p: Seq<T>| resolved(*data, *extrapolate, p));
    let mut i: usize = 0;
    while i < points.len()
        invariant
            data.shaped(),
            strategy.validation(*data) is Ok,
            i <= points@.len(),
            out@.len() == points@.len(),
            old(out)@.len() == points@.len(),
            forall|k: int| 0 <= k < points@.len() ==> (#[trigger] points@[k])@.len() == data.dims(),
            *extrapolate is Wrap ==> forall|k: int| 0 <= k < points@.len() ==> data.wrap_ready((#[trigger] points@[k])@),
            rq == slice_views(points@).map_values(|p: Seq<T>| resolved(*data, *extrapolate, p)),
            ordered::<T>() && data.valid() ==> forall|j: int|
                0 <= j < i ==> strategy.interpolation(*data, #[trigger] rq[j]) == Ok::<T, InterpolateError>(out@[j]),
        decreases points@.len() - i,
    {
        let point: &[T] = points[i];
        assert(rq[i as int] == resolved(*data, *extrapolate, point@));
        match resolve_and_interpolate(data, strategy, extrapolate, point) {
            Ok(v) => {
                out[i] = v;
            },
            Err(e) => {
                proof {
                    if ordered::<T>() && data.valid() {
                        assert(forall|j: int| 0 <= j < i ==> strategy.interpolation(*data, #[trigger] rq[j]) is Ok);
                    }
                }
                return Err(e);
            },
        }
        i = i + 1;
    }
    Ok(())
}

/// Append the out-of-bounds entries of `point`, tagged with `index`, to `errors`.
fn push_out_of_bounds<T: PartialOrd + Copy>(
    data: &InterpDataNDBase<T>,
    point: &[T],
    index: usize,
    errors: &mut Vec<OutOfBoundsAt>,
)
    requires
        data.shaped(),
        point@.len() == data.dims(),
    ensures
        obeys_order::<T>() ==> final(errors)@ == old(errors)@ + data.out_of_bounds_upto(
            point@,
            index,
            data.dims() as int,
        ),
{
    let n = data.ndim();
    let mut dim: usize = 0;
    while dim < n
        invariant
            data.shaped(),
            n == data.dims(),
            point@.len() == n,
            dim <= n,
            obeys_order::<T>() ==> errors@ == old(errors)@ + data.out_of_bounds_upto(point@, index, dim as int),
        decreases n - dim,
    {
        let (lo, hi) = axis_bounds(data, dim);
        if !in_range_exec(&point[dim], &lo, &hi) {
            errors.push(OutOfBoundsAt::new(index, dim));
        }
        proof {
            if obeys_order::<T>() {
                assert(errors@ =~= old(errors)@ + data.out_of_bounds_upto(point@, index, dim + 1));
            }
        }
        dim = dim + 1;
    }
}

impl<T: PartialOrd> InterpDataNDBase<T> {
    /// The positions of in-bound points are increasing, below `n`, and are exactly the
    /// positions of the points within the grid.
    pub proof fn lemma_inbound_positions(&self, points: Seq<Seq<T>>, n: int)
        requires
            0 <= n <= points.len(),
        ensures
            forall|k: int|
                0 <= k < self.inbound_positions(points, n).len() ==> 0 <= #[trigger] self.inbound_positions(
                    points,
                    n,
                )[k] < n,
            forall|k: int, l: int|
                0 <= k < l < self.inbound_positions(points, n).len() ==> self.inbound_positions(points, n)[k]
                    < self.inbound_positions(points, n)[l],
            forall|j: int|
                0 <= j < n ==> (self.contains_point(#[trigger] points[j]) <==> exists|k: int|
                    0 <= k < self.inbound_positions(points, n).len() && self.inbound_positions(points, n)[k] == j),
        decreases n,
    {
        if n > 0 {
            self.lemma_inbound_positions(points, n - 1);
            let prev = self.inbound_positions(points, n - 1);
            let cur = self.inbound_positions(points, n);
            assert forall|j: int| 0 <= j < n implies (self.contains_point(#[trigger] points[j]) <==> exists|k: int|
                0 <= k < cur.len() && cur[k] == j) by {
                if j < n - 1 {
                    if self.contains_point(points[j]) {
                        let k = choose|k: int| 0 <= k < prev.len() && prev[k] == j;
                        assert(cur[k] == j);
                    }
                    if exists|k: int| 0 <= k < cur.len() && cur[k] == j {
                        let k = choose|k: int| 0 <= k < cur.len() && cur[k] == j;
                        if k < prev.len() {
                            assert(prev[k] == j);
                        }
                    }
                } else {
                    if self.contains_point(points[j]) {
                        assert(cur[prev.len() as int] == j);
                    }
                }
            }
        }
    }
}

/// `Extrapolate::Fill` for a batch: every point beyond the grid gets `value`, and the
/// points within it are evaluated, in order, before any is written out.
fn batch_fill<T: PartialOrd + Copy + Add<Output = T> + Sub<Output = T> + Rem<Output = T>, S: StrategyND<T>>(
    data: &InterpDataNDBase<T>,
    strategy: &S,
    value: T,
    points: &[&[T]],
    out: &mut [T],
) -> (r: Result<(), InterpolateError>)
    requires
        data.shaped(),
        strategy.validation(*data) is Ok,
        old(out)@.len() == points@.len(),
        forall|i: int| 0 <= i < points@.len() ==> (#[trigger] points@[i])@.len() == data.dims(),
    ensures
        final(out)@.len() == old(out)@.len(),
        ordered::<T>() && data.valid() ==> batch_nd_outcome(
            *data,
            *strategy,
            Extrapolate::Fill(value),
            slice_views(points@),
            r,
            old(out)@,
            final(out)@,
        ),
{
    let ghost q = slice_views(points@);
    let n = points.len();
    let mut i: usize = 0;
    while i < out.len()
        invariant
            i <= out@.len(),
            out@.len() == n,
            old(out)@.len() == n,
            n == points@.len(),
            forall|j: int| 0 <= j < i ==> #[trigger] out@[j] == value,
        decreases out@.len() - i,
    {
        out[i] = value;
        i = i + 1;
    }
    let mut idx: Vec<usize> = Vec::new();
    let mut pts: Vec<&[T]> = Vec::new();
    let mut i: usize = 0;
    while i < n
        invariant
            data.shaped(),
            n == points@.len(),
            q == slice_views(points@),
            forall|k: int| 0 <= k < points@.len() ==> (#[trigger] points@[k])@.len() == data.dims(),
            i <= n,
            idx@.len() == pts@.len(),
            forall|k: int| 0 <= k < idx@.len() ==> #[trigger] idx@[k] < i,
            forall|a: int, b: int| 0 <= a < b < idx@.len() ==> idx@[a] < idx@[b],
            forall|k: int| 0 <= k < idx@.len() ==> (#[trigger] pts@[k])@ == points@[idx@[k] as int]@,
            obeys_order::<T>() ==> idx@.len() == data.inbound_positions(q, i as int).len(),
            obeys_order::<T>() ==> forall|k: int|
                0 <= k < idx@.len() ==> #[trigger] idx@[k] as int == data.inbound_positions(q, i as int)[k],
            out@.len() == n,
            old(out)@.len() == n,
            forall|j: int| 0 <= j < n ==> #[trigger] out@[j] == value,
        decreases n - i,
    {
        let point: &[T] = points[i];
        let outside = point_out_of_bounds(data, point);
        proof {
            assert(q[i as int] == point@);
        }
        if !outside {
            idx.push(i);
            pts.push(point);
        }
        i = i + 1;
    }
    proof {
        if obeys_order::<T>() {
            data.lemma_inbound_positions(q, n as int);
        }
    }
    let ghost inb = data.inbound_positions(q, n as int);
    let ghost sub = inb.map_values(|j: int| q[j]);
    let mut scratch: Vec<T> = Vec::new();
    let mut k: usize = 0;
    while k < pts.len()
        invariant
            data.shaped(),
            strategy.validation(*data) is Ok,
            k <= pts@.len(),
            scratch@.len() == k,
            idx@.len() == pts@.len(),
            n == points@.len(),
            q == slice_views(points@),
            forall|a: int| 0 <= a < points@.len() ==> (#[trigger] points@[a])@.len() == data.dims(),
            forall|a: int| 0 <= a < idx@.len() ==> #[trigger] idx@[a] < n,
            forall|a: int| 0 <= a < idx@.len() ==> (#[trigger] pts@[a])@ == points@[idx@[a] as int]@,
            inb == data.inbound_positions(q, n as int),
            sub == inb.map_values(|j: int| q[j]),
            obeys_order::<T>() ==> idx@.len() == inb.len(),
            obeys_order::<T>() ==> forall|a: int| 0 <= a < idx@.len() ==> #[trigger] idx@[a] as int == inb[a],
            ordered::<T>() && data.valid() ==> forall|j: int|
                0 <= j < k ==> strategy.interpolation(*data, #[trigger] sub[j]) == Ok::<T, InterpolateError>(scratch@[j]),
            out@.len() == n,
            old(out)@.len() == n,
            forall|j: int| 0 <= j < n ==> #[trigger] out@[j] == value,
        decreases pts@.len() - k,
    {
        let point: &[T] = pts[k];
        assert(point@.len() == data.dims()) by {
            assert(pts@[k as int]@ == points@[idx@[k as int] as int]@);
        }
        proof {
            if ordered::<T>() && data.valid() {
                assert(sub[k as int] == q[inb[k as int]]);
                assert(q[idx@[k as int] as int] == points@[idx@[k as int] as int]@);
            }
        }
        match strategy.interpolate(data, point) {
            Ok(v) => {
                scratch.push(v);
            },
            Err(e) => {
                proof {
                    if ordered::<T>() && data.valid() {
                        assert(forall|j: int| 0 <= j < k ==> strategy.interpolation(*data, #[trigger] sub[j]) is Ok);
                        assert(sub.len() == pts@.len());
                        assert(strategy.interpolation(*data, sub[k as int]) == Err::<T, InterpolateError>(e));
                    }
                }
                return Err(e);
            },
        }
        k = k + 1;
    }
    let mut k: usize = 0;
    while k < idx.len()
        invariant
            k <= idx@.len(),
            idx@.len() == pts@.len(),
            scratch@.len() == idx@.len(),
            out@.len() == n,
            forall|a: int| 0 <= a < idx@.len() ==> #[trigger] idx@[a] < n,
            forall|a: int, b: int| 0 <= a < b < idx@.len() ==> idx@[a] < idx@[b],
            forall|a: int| 0 <= a < k ==> out@[#[trigger] idx@[a] as int] == scratch@[a],
            forall|j: int|
                0 <= j < n && (forall|a: int| 0 <= a < k ==> #[trigger] idx@[a] != j) ==> out@[j] == value,
        decreases idx@.len() - k,
    {
        out[idx[k]] = scratch[k];
        k = k + 1;
    }
    proof {
        if ordered::<T>() && data.valid() {
            assert forall|j: int| 0 <= j < n implies if data.contains_point(#[trigger] q[j]) {
                strategy.interpolation(*data, q[j]) == Ok::<T, InterpolateError>(out@[j])
            } else {
                out@[j] == value
            } by {
                if data.contains_point(q[j]) {
                    let a = choose|a: int| 0 <= a < inb.len() && inb[a] == j;
                    assert(idx@[a] as int == inb[a]);
                    assert(out@[idx@[a] as int] == scratch@[a]);
                    assert(sub[a] == q[j]);
                } else {
                    assert forall|a: int| 0 <= a < idx@.len() implies #[trigger] idx@[a] != j by {
                        assert(idx@[a] as int == inb[a]);
                    }
                }
            }
        }
    }
    Ok(())
}

/// Interpolate `data` at each of `points`, each with one coordinate per axis, with
/// `strategy`, resolving `extrapolate` once for the whole batch and writing the values
/// into `out`.
fn batch_points_into<
    T: PartialOrd + Copy + Add<Output = T> + Sub<Output = T> + Rem<Output = T>,
    S: StrategyND<T>,
>(
    data: &InterpDataNDBase<T>,
    strategy: &S,
    extrapolate: &Extrapolate<T>,
    points: &[&[T]],
    out: &mut [T],
) -> (r: Result<(), InterpolateError>)
    requires
        data.shaped(),
        strategy.validation(*data) is Ok,
        old(out)@.len() == points@.len(),
        forall|i: int| 0 <= i < points@.len() ==> (#[trigger] points@[i])@.len() == data.dims(),
        *extrapolate is Wrap ==> forall|i: int| 0 <= i < points@.len() ==> data.wrap_ready((#[trigger] points@[i])@),
    ensures
        final(out)@.len() == old(out)@.len(),
        ordered::<T>() && data.valid() ==> batch_nd_outcome(
            *data,
            *strategy,
            *extrapolate,
            slice_views(points@),
            r,
            old(out)@,
            final(out)@,
        ),
{
    let ghost q = slice_views(points@);
    match extrapolate {
        Extrapolate::Fill(value) => batch_fill(data, strategy, *value, points, out),
        Extrapolate::Error => {
            let mut errors: Vec<OutOfBoundsAt> = Vec::new();
            let mut i: usize = 0;
            while i < points.len()
                invariant
                    data.shaped(),
                    i <= points@.len(),
                    q == slice_views(points@),
                    forall|k: int| 0 <= k < points@.len() ==> (#[trigger] points@[k])@.len() == data.dims(),
                    obeys_order::<T>() ==> errors@ == data.out_of_bounds_batch(q, i as int),
                decreases points@.len() - i,
            {
                let point: &[T] = points[i];
                push_out_of_bounds(data, point, i, &mut errors);
                proof {
                    if obeys_order::<T>() {
                        assert(q[i as int] == point@);
                        assert(errors@ =~= data.out_of_bounds_batch(q, i + 1));
                    }
                }
                i = i + 1;
            }
            if errors.len() > 0 {
                return Err(InterpolateError::OutOfBounds(errors));
            }
            let r = eval_each(data, strategy, extrapolate, points, out);
            proof {
                if ordered::<T>() && data.valid() {
                    assert(q.map_values(|p: Seq<T>| resolved(*data, *extrapolate, p)) =~= q);
                }
            }
            r
        },
        Extrapolate::Enable => {
            let r = eval_each(data, strategy, extrapolate, points, out);
            proof {
                if ordered::<T>() && data.valid() {
                    assert(q.map_values(|p: Seq<T>| resolved(*data, *extrapolate, p)) =~= q);
                }
            }
            r
        },
        Extrapolate::Clamp => {
            let r = eval_each(data, strategy, extrapolate, points, out);
            proof {
                if ordered::<T>() && data.valid() {
                    assert(q.map_values(|p: Seq<T>| resolved(*data, *extrapolate, p)) =~= q.map_values(
                        |p: Seq<T>| data.clamped(p),
                    ));
                }
            }
            r
        },
        Extrapolate::Wrap => {
            let r = eval_each(data, strategy, extrapolate, points, out);
            proof {
                if ordered::<T>() && data.valid() {
                    assert(q.map_values(|p: Seq<T>| resolved(*data, *extrapolate, p)) =~= q.map_values(
                        |p: Seq<T>| data.wrapped_if_outside(p),
                    ));
                }
            }
            r
        },
    }
}

/// One point-length error listing, in order, every point of `points` whose length is not
/// `n`, or `Ok` when each has length `n`.
fn check_point_lengths<T>(points: &[&[T]], n: usize) -> (r: Result<(), InterpolateError>)
    ensures
        r is Ok <==> forall|i: int| 0 <= i < points@.len() ==> (#[trigger] points@[i])@.len() == n,
        r matches Err(e) ==> (e matches InterpolateError::PointLength { expected, failures } && expected == n
            && failures@ == length_failures(slice_views(points@), n as nat, points@.len() as int)),
        r is Ok <==> length_failures(slice_views(points@), n as nat, points@.len() as int).len() == 0,
{
    let ghost q = slice_views(points@);
    let mut failures: Vec<WrongLengthAt> = Vec::new();
    let mut i: usize = 0;
    while i < points.len()
        invariant
            i <= points@.len(),
            q == slice_views(points@),
            failures@ == length_failures(q, n as nat, i as int),
        decreases points@.len() - i,
    {
        let point: &[T] = points[i];
        assert(q[i as int] == point@);
        if point.len() != n {
            failures.push(WrongLengthAt::new(i, point.len()));
        }
        i = i + 1;
    }
    proof {
        lemma_length_failures_empty(q, n as nat, points@.len() as int);
        assert forall|k: int| 0 <= k < points@.len() implies (#[trigger] points@[k])@ == q[k] by {}
    }
    if failures.len() == 0 {
        Ok(())
    } else {
        Err(InterpolateError::PointLength { expected: n, failures })
    }
}

/// What constructing an N-D interpolator from `data`, `strategy` and `extrapolate`
/// reports: the data's validation error, then an unsupported extrapolation setting, then
/// the strategy's validation error, then its initialization outcome.
pub open spec fn construction_nd<T: PartialOrd, S: StrategyND<T>>(
    data: InterpDataNDBase<T>,
    strategy: S,
    extrapolate: Extrapolate<T>,
) -> Result<(), ValidateError> {
    if data.validation() is Err {
        data.validation()
    } else if extrapolate_validation(extrapolate, strategy.extrapolates()) is Err {
        extrapolate_validation(extrapolate, strategy.extrapolates())
    } else if strategy.validation(data) is Err {
        strategy.validation(data)
    } else {
        strategy.initialized(data).1
    }
}

/// What validating an N-D interpolator of `data`, `strategy` and `extrapolate` reports:
/// an unsupported extrapolation setting, then the data's validation error, then the
/// strategy's.
pub open spec fn validation_nd<T: PartialOrd, S: StrategyND<T>>(
    data: InterpDataNDBase<T>,
    strategy: S,
    extrapolate: Extrapolate<T>,
) -> Result<(), ValidateError> {
    if extrapolate_validation(extrapolate, strategy.extrapolates()) is Err {
        extrapolate_validation(extrapolate, strategy.extrapolates())
    } else if data.validation() is Err {
        data.validation()
    } else {
        strategy.validation(data)
    }
}

/// What a batch call returning a vector reports: the outcome of writing into some output
/// slice of one entry per point, whose final contents the vector holds on success.
pub open spec fn batch_nd_vec_outcome<
    T: PartialOrd + Add<Output = T> + Sub<Output = T> + Rem<Output = T>,
    S: StrategyND<T>,
>(
    data: InterpDataNDBase<T>,
    strategy: S,
    extrapolate: Extrapolate<T>,
    points: Seq<Seq<T>>,
    r: Result<Vec<T>, InterpolateError>,
) -> bool {
    exists|before: Seq<T>, after: Seq<T>|
        #![trigger before.len(), after.len()]
        before.len() == points.len() && after.len() == points.len() && match r {
            Ok(v) => v@ == after && batch_nd_outcome(
                data,
                strategy,
                extrapolate,
                points,
                Ok::<(), InterpolateError>(()),
                before,
                after,
            ),
            Err(e) => batch_nd_outcome(data, strategy, extrapolate, points, Err::<(), InterpolateError>(e), before, after),
        }
}

/// N-D interpolator: data with a number of axes known only at run time, a strategy and
/// an extrapolation setting.
#[derive(Debug, Clone, PartialEq)]
pub struct InterpNDBase<T, S> {
    /// Interpolator data.
    pub data: InterpDataNDBase<T>,
    /// Interpolation strategy.
    pub strategy: S,
    /// Extrapolation setting.
    pub extrapolate: Extrapolate<T>,
}

/// N-D interpolator (owned data).
pub type InterpND<T, S> = InterpNDBase<T, S>;

impl<T: PartialOrd + Copy + Add<Output = T> + Sub<Output = T> + Rem<Output = T>, S: StrategyND<T>> InterpNDBase<T, S> {
    /// The data is shaped, the strategy accepts it, and the extrapolation setting suits
    /// the strategy: what interpolating relies on.
    pub open spec fn ready(&self) -> bool {
        &&& self.data.shaped()
        &&& self.strategy.validation(self.data) is Ok
        &&& extrapolate_validation(self.extrapolate, self.strategy.extrapolates()) is Ok
    }

    /// What validating reports: an unsupported extrapolation setting, then the data's
    /// validation error, then the strategy's.
    pub open spec fn validation(&self) -> Result<(), ValidateError> {
        validation_nd(self.data, self.strategy, self.extrapolate)
    }

    /// Construct and validate an N-D interpolator, initializing its strategy.
    pub fn new(grid: Vec<Vec<T>>, values: ValuesND<T>, strategy: S, extrapolate: Extrapolate<T>) -> (r: Result<
        Self,
        ValidateError,
    >)
        ensures
            r matches Ok(it) ==> it.data == (InterpDataNDBase { grid, values }) && it.strategy == strategy.initialized(
                it.data,
            ).0 && it.extrapolate == extrapolate,
            r matches Ok(it) ==> (it.data.values.dims().len() == it.data.dims() ==> it.ready()),
            obeys_order::<T>() ==> match r {
                Ok(_) => construction_nd((InterpDataNDBase { grid, values }), strategy, extrapolate) is Ok,
                Err(e) => construction_nd((InterpDataNDBase { grid, values }), strategy, extrapolate) == Err::<
                    (),
                    ValidateError,
                >(e),
            },
    {
        let data = match InterpDataNDBase::new(grid, values) {
            Ok(d) => d,
            Err(e) => {
                return Err(e);
            },
        };
        let mut interpolator = InterpNDBase { data, strategy, extrapolate };
        match interpolator.validate_extrapolate(&interpolator.extrapolate) {
            Ok(()) => {},
            Err(e) => {
                return Err(e);
            },
        }
        match interpolator.validate_strategy() {
            Ok(()) => {},
            Err(e) => {
                return Err(e);
            },
        }
        match interpolator.init_strategy() {
            Ok(()) => Ok(interpolator),
            Err(e) => Err(e),
        }
    }

    /// Interpolator dimensionality: that of the data.
    pub fn ndim(&self) -> (r: usize)
        ensures
            r == self.data.dims(),
    {
        self.data.ndim()
    }

    /// Check that `extrapolate` suits the current strategy: only `Enable` can be
    /// refused, by a strategy that does not allow extrapolation.
    pub fn validate_extrapolate(&self, extrapolate: &Extrapolate<T>) -> (r: Result<(), ValidateError>)
        ensures
            r == extrapolate_validation(*extrapolate, self.strategy.extrapolates()),
    {
        check_extrapolate(extrapolate, self.strategy.allow_extrapolate())
    }

    /// Re-run the strategy's validation against the current data.
    pub fn validate_strategy(&self) -> (r: Result<(), ValidateError>)
        ensures
            r == self.strategy.validation(self.data),
    {
        self.strategy.validate(&self.data)
    }

    /// Re-run the strategy's initialization against the current data.
    pub fn init_strategy(&mut self) -> (r: Result<(), ValidateError>)
        ensures
            final(self).data == old(self).data,
            final(self).extrapolate == old(self).extrapolate,
            (final(self).strategy, r) == old(self).strategy.initialized(old(self).data),
            final(self).strategy.extrapolates() == old(self).strategy.extrapolates(),
            r is Ok && old(self).strategy.validation(old(self).data) is Ok ==> final(self).strategy.validation(
                final(self).data,
            ) is Ok,
    {
        self.strategy.init(&self.data)
    }

    /// Validate the extrapolation setting, the data, and the strategy, in that order.
    pub fn validate(&self) -> (r: Result<(), ValidateError>)
        ensures
            extrapolate_validation(self.extrapolate, self.strategy.extrapolates()) is Err ==> r == self.validation(),
            obeys_order::<T>() ==> r == self.validation(),
            r is Ok && self.data.values.dims().len() == self.data.dims() ==> self.ready(),
    {
        match self.validate_extrapolate(&self.extrapolate) {
            Ok(()) => {},
            Err(e) => {
                return Err(e);
            },
        }
        match self.data.validate() {
            Ok(()) => {},
            Err(e) => {
                return Err(e);
            },
        }
        self.validate_strategy()
    }

    /// Set the extrapolation setting, refusing one the strategy does not allow.
    pub fn set_extrapolate(&mut self, extrapolate: Extrapolate<T>) -> (r: Result<(), ValidateError>)
        ensures
            r == extrapolate_validation(extrapolate, old(self).strategy.extrapolates()),
            final(self).data == old(self).data,
            final(self).strategy == old(self).strategy,
            final(self).extrapolate == (if r is Ok {
                extrapolate
            } else {
                old(self).extrapolate
            }),
    {
        match self.validate_extrapolate(&extrapolate) {
            Ok(()) => {},
            Err(e) => {
                return Err(e);
            },
        }
        self.extrapolate = extrapolate;
        Ok(())
    }

    /// Replace the strategy, then check the extrapolation setting and the new strategy
    /// against the data and initialize it. The new strategy stays in place even when a
    /// check fails.
    pub fn set_strategy(&mut self, strategy: S) -> (r: Result<(), ValidateError>)
        ensures
            final(self).data == old(self).data,
            final(self).extrapolate == old(self).extrapolate,
            extrapolate_validation(old(self).extrapolate, strategy.extrapolates()) is Err ==> r
                == extrapolate_validation(old(self).extrapolate, strategy.extrapolates()) && final(self).strategy
                == strategy,
            extrapolate_validation(old(self).extrapolate, strategy.extrapolates()) is Ok && strategy.validation(
                old(self).data,
            ) is Err ==> r == strategy.validation(old(self).data) && final(self).strategy == strategy,
            extrapolate_validation(old(self).extrapolate, strategy.extrapolates()) is Ok && strategy.validation(
                old(self).data,
            ) is Ok ==> (final(self).strategy, r) == strategy.initialized(old(self).data),
            r is Ok && old(self).data.shaped() ==> final(self).ready(),
    {
        self.strategy = strategy;
        match self.validate_extrapolate(&self.extrapolate) {
            Ok(()) => {},
            Err(e) => {
                return Err(e);
            },
        }
        match self.validate_strategy() {
            Ok(()) => {},
            Err(e) => {
                return Err(e);
            },
        }
        self.init_strategy()
    }

    /// Interpolate at `point`, which must have one coordinate per axis, resolving the
    /// extrapolation setting on every axis the point leaves the grid.
    pub fn interpolate(&self, point: &[T]) -> (r: Result<T, InterpolateError>)
        requires
            self.ready(),
            point@.len() == self.data.dims() && self.extrapolate is Wrap ==> self.data.wrap_ready(point@),
        ensures
            point@.len() != self.data.dims() ==> (r matches Err(InterpolateError::PointLength { expected, failures })
                && expected == self.data.dims() && failures@ == seq![
                WrongLengthAt { index: 0, found: point@.len() as usize },
            ]),
            point@.len() == self.data.dims() && ordered::<T>() && self.data.valid() ==> interpolate_nd_outcome(
                self.data,
                self.strategy,
                self.extrapolate,
                point@,
                r,
            ),
    {
        let n = self.data.ndim();
        if point.len() != n {
            return Err(
                InterpolateError::PointLength { expected: n, failures: vec![WrongLengthAt::new(0, point.len())] },
            );
        }
        interpolate_point(&self.data, &self.strategy, &self.extrapolate, point)
    }

    /// Interpolate without the bounds check and extrapolation handling, for points the
    /// caller knows the strategy evaluates.
    pub fn interpolate_fast(&self, point: &[T]) -> (r: T)
        requires
            self.ready(),
            point@.len() == self.data.dims(),
            ordered::<T>(),
            self.data.valid(),
            self.strategy.interpolation(self.data, point@) is Ok,
        ensures
            self.strategy.interpolation(self.data, point@) == Ok::<T, InterpolateError>(r),
    {
        match self.strategy.interpolate(&self.data, point) {
            Ok(v) => v,
            Err(_) => vstd::pervasive::unreached(),
        }
    }

    /// Interpolate at each of `points`, once every one has been checked to have one
    /// coordinate per axis, resolving the extrapolation setting once for the whole batch
    /// and writing the values into `out`.
    pub fn batch_interpolate_into(&self, points: &[&[T]], out: &mut [T]) -> (r: Result<(), InterpolateError>)
        requires
            self.ready(),
            self.extrapolate is Wrap ==> forall|i: int|
                0 <= i < points@.len() && (#[trigger] points@[i])@.len() == self.data.dims()
                    ==> self.data.wrap_ready(points@[i]@),
        ensures
            final(out)@.len() == old(out)@.len(),
            length_failures(slice_views(points@), self.data.dims(), points@.len() as int).len() > 0 ==> (r matches Err(
                InterpolateError::PointLength { expected, failures },
            ) && expected == self.data.dims() && failures@ == length_failures(
                slice_views(points@),
                self.data.dims(),
                points@.len() as int,
            ) && final(out)@ == old(out)@),
            length_failures(slice_views(points@), self.data.dims(), points@.len() as int).len() == 0 && old(
                out,
            )@.len() != points@.len() ==> (r matches Err(InterpolateError::OutputLength { expected, found })
                && expected == points@.len() && found == old(out)@.len() && final(out)@ == old(out)@),
            length_failures(slice_views(points@), self.data.dims(), points@.len() as int).len() == 0 && old(
                out,
            )@.len() == points@.len() && ordered::<T>() && self.data.valid() ==> batch_nd_outcome(
                self.data,
                self.strategy,
                self.extrapolate,
                slice_views(points@),
                r,
                old(out)@,
                final(out)@,
            ),
    {
        let n = self.data.ndim();
        match check_point_lengths(points, n) {
            Ok(()) => {},
            Err(e) => {
                return Err(e);
            },
        }
        if out.len() != points.len() {
            return Err(InterpolateError::OutputLength { expected: points.len(), found: out.len() });
        }
        batch_points_into(&self.data, &self.strategy, &self.extrapolate, points, out)
    }

    /// Interpolate at each of `points`, once every one has been checked to have one
    /// coordinate per axis, resolving the extrapolation setting once for the whole batch.
    pub fn batch_interpolate(&self, points: &[&[T]]) -> (r: Result<Vec<T>, InterpolateError>)
        requires
            self.ready(),
            self.extrapolate is Wrap ==> forall|i: int|
                0 <= i < points@.len() && (#[trigger] points@[i])@.len() == self.data.dims()
                    ==> self.data.wrap_ready(points@[i]@),
        ensures
            length_failures(slice_views(points@), self.data.dims(), points@.len() as int).len() > 0 ==> (r matches Err(
                InterpolateError::PointLength { expected, failures },
            ) && expected == self.data.dims() && failures@ == length_failures(
                slice_views(points@),
                self.data.dims(),
                points@.len() as int,
            )),
            r matches Ok(v) ==> v@.len() == points@.len(),
            length_failures(slice_views(points@), self.data.dims(), points@.len() as int).len() == 0 && ordered::<
                T,
            >() && self.data.valid() ==> batch_nd_vec_outcome(
                self.data,
                self.strategy,
                self.extrapolate,
                slice_views(points@),
                r,
            ),
    {
        let filler = self.first_value();
        let mut out: Vec<T> = Vec::new();
        let mut i: usize = 0;
        while i < points.len()
            invariant
                i <= points@.len(),
                out@.len() == i,
            decreases points@.len() - i,
        {
            out.push(filler);
            i = i + 1;
        }
        let ghost before = out@;
        let r = self.batch_interpolate_into(points, out.as_mut_slice());
        assert(before.len() == points@.len() && out@.len() == points@.len());
        match r {
            Ok(()) => Ok(out),
            Err(e) => Err(e),
        }
    }

    /// The first of the values, to fill an output vector before it is written.
    fn first_value(&self) -> (r: T)
        requires
            self.data.shaped(),
        ensures
            self.data.values.items().len() > 0,
            r == self.data.values.items()[0],
    {
        let ghost shape = self.data.values.dims();
        let total = self.data.values.len();
        proof {
            assert forall|d: int| 0 <= d < shape.len() implies shape[d] != 0 by {
                assert(self.data.coords(d).len() >= 2);
            }
            lemma_product_grows(shape, 0);
            assert(shape.take(0) =~= Seq::<usize>::empty());
        }
        let elems = self.data.values.elems();
        elems[0]
    }

    /// Batched [`Self::interpolate_fast`], writing into `out`.
    pub fn batch_interpolate_fast_into(&self, points: &[&[T]], out: &mut [T])
        requires
            self.ready(),
            ordered::<T>(),
            self.data.valid(),
            old(out)@.len() == points@.len(),
            forall|i: int|
                0 <= i < points@.len() ==> (#[trigger] points@[i])@.len() == self.data.dims()
                    && self.strategy.interpolation(self.data, points@[i]@) is Ok,
        ensures
            final(out)@.len() == points@.len(),
            forall|i: int|
                0 <= i < points@.len() ==> self.strategy.interpolation(self.data, (#[trigger] points@[i])@) == Ok::<
                    T,
                    InterpolateError,
                >(final(out)@[i]),
    {
        let mut i: usize = 0;
        while i < points.len()
            invariant
                self.ready(),
                ordered::<T>(),
                self.data.valid(),
                i <= points@.len(),
                out@.len() == points@.len(),
                forall|k: int|
                    0 <= k < points@.len() ==> (#[trigger] points@[k])@.len() == self.data.dims()
                        && self.strategy.interpolation(self.data, points@[k]@) is Ok,
                forall|k: int|
                    0 <= k < i ==> self.strategy.interpolation(self.data, (#[trigger] points@[k])@) == Ok::<
                        T,
                        InterpolateError,
                    >(out@[k]),
            decreases points@.len() - i,
        {
            let point: &[T] = points[i];
            out[i] = self.interpolate_fast(point);
            i = i + 1;
        }
    }

    /// Batched [`Self::interpolate_fast`].
    pub fn batch_interpolate_fast(&self, points: &[&[T]]) -> (r: Vec<T>)
        requires
            self.ready(),
            ordered::<T>(),
            self.data.valid(),
            forall|i: int|
                0 <= i < points@.len() ==> (#[trigger] points@[i])@.len() == self.data.dims()
                    && self.strategy.interpolation(self.data, points@[i]@) is Ok,
        ensures
            r@.len() == points@.len(),
            forall|i: int|
                0 <= i < points@.len() ==> self.strategy.interpolation(self.data, (#[trigger] points@[i])@) == Ok::<
                    T,
                    InterpolateError,
                >(r@[i]),
    {
        let mut out: Vec<T> = Vec::new();
        let mut i: usize = 0;
        while i < points.len()
            invariant
                self.ready(),
                ordered::<T>(),
                self.data.valid(),
                i <= points@.len(),
                out@.len() == i,
                forall|k: int|
                    0 <= k < points@.len() ==> (#[trigger] points@[k])@.len() == self.data.dims()
                        && self.strategy.interpolation(self.data, points@[k]@) is Ok,
                forall|k: int|
                    0 <= k < i ==> self.strategy.interpolation(self.data, (#[trigger] points@[k])@) == Ok::<
                        T,
                        InterpolateError,
                    >(out@[k]),
            decreases points@.len() - i,
        {
            let point: &[T] = points[i];
            out.push(self.interpolate_fast(point));
            i = i + 1;
        }
        out
    }

    /// View the interpolator: a borrow of the same interpolator.
    pub fn view(&self) -> (r: &Self)
        ensures
            *r == *self,
    {
        self
    }

    /// Turn the interpolator into its owned form; its data is owned already.
    pub fn into_owned(self) -> (r: Self)
        ensures
            r == self,
    {
        self
    }
}

impl<T: PartialOrd + Copy + Add<Output = T> + Sub<Output = T> + Rem<Output = T>, S: StrategyND<T>> Interpolator<
    T,
> for InterpNDBase<T, S> {
    open spec fn dims(&self) -> nat {
        self.data.dims()
    }

    open spec fn usable(&self) -> bool {
        self.ready()
    }

    open spec fn accepts(&self, point: Seq<T>) -> bool {
        self.extrapolate is Wrap ==> self.data.wrap_ready(point)
    }

    open spec fn accepts_all(&self, points: Seq<&[T]>) -> bool {
        forall|i: int|
            0 <= i < points.len() && (#[trigger] points[i])@.len() == self.data.dims() ==> self.accepts(points[i]@)
    }

    open spec fn fast_all(&self, points: Seq<&[T]>) -> bool {
        forall|i: int|
            0 <= i < points.len() ==> (#[trigger] points[i])@.len() == self.data.dims() && self.fast_value(
                points[i]@,
            ) is Some
    }

    open spec fn interpolates(&self, point: Seq<T>, r: Result<T, InterpolateError>) -> bool {
        ordered::<T>() && self.data.valid() ==> interpolate_nd_outcome(
            self.data,
            self.strategy,
            self.extrapolate,
            point,
            r,
        )
    }

    open spec fn fast_value(&self, point: Seq<T>) -> Option<T> {
        match self.strategy.interpolation(self.data, point) {
            Ok(v) => if ordered::<T>() && self.data.valid() {
                Some(v)
            } else {
                None
            },
            Err(_) => None,
        }
    }

    open spec fn fast_filled(&self, points: Seq<&[T]>, out: Seq<T>) -> bool {
        &&& out.len() == points.len()
        &&& forall|i: int|
            0 <= i < points.len() ==> self.strategy.interpolation(self.data, (#[trigger] points[i])@) == Ok::<
                T,
                InterpolateError,
            >(out[i])
    }

    open spec fn batch_interpolates(
        &self,
        points: Seq<&[T]>,
        r: Result<(), InterpolateError>,
        before: Seq<T>,
        after: Seq<T>,
    ) -> bool {
        let failures = length_failures(slice_views(points), self.data.dims(), points.len() as int);
        if failures.len() > 0 {
            &&& r matches Err(InterpolateError::PointLength { expected, failures: f }) && expected
                == self.data.dims() && f@ == failures
            &&& after == before
        } else if before.len() != points.len() {
            &&& r matches Err(InterpolateError::OutputLength { expected, found }) && expected == points.len() && found
                == before.len()
            &&& after == before
        } else {
            ordered::<T>() && self.data.valid() ==> batch_nd_outcome(
                self.data,
                self.strategy,
                self.extrapolate,
                slice_views(points),
                r,
                before,
                after,
            )
        }
    }

    open spec fn batch_vec(&self, points: Seq<&[T]>, r: Result<Vec<T>, InterpolateError>) -> bool {
        let failures = length_failures(slice_views(points), self.data.dims(), points.len() as int);
        if failures.len() > 0 {
            r matches Err(InterpolateError::PointLength { expected, failures: f }) && expected == self.data.dims()
                && f@ == failures
        } else {
            &&& r matches Ok(v) ==> v@.len() == points.len()
            &&& ordered::<T>() && self.data.valid() ==> batch_nd_vec_outcome(
                self.data,
                self.strategy,
                self.extrapolate,
                slice_views(points),
                r,
            )
        }
    }

    open spec fn validates(&self, r: Result<(), ValidateError>) -> bool {
        &&& extrapolate_validation(self.extrapolate, self.strategy.extrapolates()) is Err ==> r == self.validation()
        &&& obeys_order::<T>() ==> r == self.validation()
        &&& r is Ok && self.data.values.dims().len() == self.data.dims() ==> self.ready()
    }

    open spec fn sets_extrapolate(&self, extrapolate: Extrapolate<T>, r: Result<(), ValidateError>, after: Self) -> bool {
        &&& r == extrapolate_validation(extrapolate, self.strategy.extrapolates())
        &&& after.data == self.data
        &&& after.strategy == self.strategy
        &&& after.extrapolate == (if r is Ok {
            extrapolate
        } else {
            self.extrapolate
        })
    }

    /// The dimensionality of the data.
    fn ndim(&self) -> (r: usize) {
        InterpNDBase::ndim(self)
    }

    /// Validate the extrapolation setting, the data, and the strategy, in that order.
    fn validate(&self) -> (r: Result<(), ValidateError>) {
        InterpNDBase::validate(self)
    }

    /// Interpolate at `point` once it has been checked to have one coordinate per axis.
    fn interpolate(&self, point: &[T]) -> (r: Result<T, InterpolateError>) {
        InterpNDBase::interpolate(self, point)
    }

    /// Set the extrapolation setting, refusing one the strategy does not allow.
    fn set_extrapolate(&mut self, extrapolate: Extrapolate<T>) -> (r: Result<(), ValidateError>) {
        InterpNDBase::set_extrapolate(self, extrapolate)
    }

    /// Interpolate without the bounds check and extrapolation handling.
    fn interpolate_fast(&self, point: &[T]) -> (r: T) {
        InterpNDBase::interpolate_fast(self, point)
    }

    /// Interpolate at each of `points` once every one has been checked to have one
    /// coordinate per axis, resolving the extrapolation setting once for the whole batch.
    fn batch_interpolate_into(&self, points: &[&[T]], out: &mut [T]) -> (r: Result<(), InterpolateError>) {
        InterpNDBase::batch_interpolate_into(self, points, out)
    }

    /// Batched [`Interpolator::interpolate_fast`], writing into `out`.
    fn batch_interpolate_fast_into(&self, points: &[&[T]], out: &mut [T]) {
        if points.len() == 0 {
            return;
        }
        assert(self.fast_value(points@[0]@) is Some);
        InterpNDBase::batch_interpolate_fast_into(self, points, out)
    }

    /// Interpolate at each of `points` once every one has been checked to have one
    /// coordinate per axis.
    fn batch_interpolate(&self, points: &[&[T]]) -> (r: Result<Vec<T>, InterpolateError>) {
        InterpNDBase::batch_interpolate(self, points)
    }

    /// Batched [`Interpolator::interpolate_fast`].
    fn batch_interpolate_fast(&self, points: &[&[T]]) -> (r: Vec<T>) {
        if points.len() == 0 {
            return Vec::new();
        }
        assert(self.fast_value(points@[0]@) is Some);
        InterpNDBase::batch_interpolate_fast(self, points)
    }
}

} // verus!
