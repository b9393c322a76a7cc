//! Interpolation strategies: the [`Strategy`] trait that interpolators call once the
//! extrapolation setting has been resolved, and the provided strategies that need only
//! comparisons ([`Step`], [`StepLower`], [`StepUpper`]) or integer arithmetic
//! ([`Nearest`]).

use vstd::prelude::*;
use crate::data::{InterpDataBase, InterpData1DBase, InterpData2DBase, InterpData3DBase, Values};
use crate::error::{InterpolateError, ValidateError};
use crate::order::{le, lt, ordered, find_floor, find_ceil, find_bracket, floor_index, ceil_index, bracket_index, strictly_increasing};

verus! {

/// An interpolation strategy for data with `N` axes.
///
/// Interpolators resolve their extrapolation setting first and then hand the strategy
/// the point to evaluate. Implement this trait to define a custom strategy; its
/// specification functions say what each method computes.
pub trait Strategy<T: PartialOrd, V: Values<T, N>, const N: usize>: Sized {
    /// Value (or error) of interpolating `data` at `point`.
    spec fn interpolation(&self, data: InterpDataBase<T, V, N>, point: Seq<T>) -> Result<
        T,
        InterpolateError,
    >;

    /// Outcome of checking the strategy's own invariants against `data`.
    spec fn validation(&self, data: InterpDataBase<T, V, N>) -> Result<(), ValidateError>;

    /// The strategy after precomputing its state for `data`, and the outcome.
    spec fn initialized(&self, data: InterpDataBase<T, V, N>) -> (Self, Result<(), ValidateError>);

    /// Whether the strategy can evaluate points beyond the grid.
    spec fn extrapolates(&self) -> bool;

    /// Check the strategy's own invariants against `data`.
    fn validate(&self, data: &InterpDataBase<T, V, N>) -> (r: Result<(), ValidateError>)
        ensures
            r == self.validation(*data),
    ;

    /// Precompute whatever state the strategy caches for `data`. Initializing does not
    /// change whether the strategy extrapolates, and a strategy that accepted `data`
    /// before initializing successfully still accepts it.
    fn init(&mut self, data: &InterpDataBase<T, V, N>) -> (r: Result<(), ValidateError>)
        ensures
            (*final(self), r) == old(self).initialized(*data),
            final(self).extrapolates() == old(self).extrapolates(),
            r is Ok && old(self).validation(*data) is Ok ==> final(self).validation(*data) is Ok,
    ;

    /// Initializing does not change whether the strategy extrapolates, and a strategy that
    /// accepted `data` and then initialized successfully still accepts it.
    proof fn lemma_initialized(&self, data: InterpDataBase<T, V, N>)
        ensures
            self.initialized(data).0.extrapolates() == self.extrapolates(),
            self.initialized(data).1 is Ok && self.validation(data) is Ok ==> self.initialized(data).0.validation(
                data,
            ) is Ok,
    ;

    /// Whether `Extrapolate::Enable` may be used with this strategy.
    fn allow_extrapolate(&self) -> (r: bool)
        ensures
            r == self.extrapolates(),
    ;

    /// Interpolate `data` at `point`.
    fn interpolate(&self, data: &InterpDataBase<T, V, N>, point: &[T; N]) -> (r: Result<
        T,
        InterpolateError,
    >)
        requires
            data.shaped(),
            self.validation(*data) is Ok,
        ensures
            ordered::<T>() && data.valid() ==> r == self.interpolation(*data, point@),
    ;

    /// Interpolate `data` at each of `points`, writing the values into `out`; stops at
    /// the first point that fails and returns its error.
    fn batch_interpolate_into(
        &self,
        data: &InterpDataBase<T, V, N>,
        points: &[[T; N]],
        out: &mut [T],
    ) -> (r: Result<(), InterpolateError>)
        requires
            data.shaped(),
            self.validation(*data) is Ok,
            old(out)@.len() == points@.len(),
        ensures
            final(out)@.len() == old(out)@.len(),
            ordered::<T>() && data.valid() ==> match r {
                Ok(_) => forall|i: int|
                    0 <= i < points@.len() ==> self.interpolation(*data, (#[trigger] points@[i])@)
                        == Ok::<T, InterpolateError>(final(out)@[i]),
                Err(e) => exists|k: int|
                    0 <= k < points@.len() && (forall|i: int|
                        0 <= i < k ==> self.interpolation(*data, (#[trigger] points@[i])@) is Ok)
                        && self.interpolation(*data, points@[k]@) == Err::<T, InterpolateError>(e),
            },
    {
        let mut i: usize = 0;
        while i < points.len()
            invariant
                data.shaped(),
                self.validation(*data) is Ok,
                i <= points@.len(),
                out@.len() == points@.len(),
                old(out)@.len() == points@.len(),
                ordered::<T>() && data.valid() ==> forall|j: int|
                    0 <= j < i ==> self.interpolation(*data, (#[trigger] points@[j])@) == Ok::<
                        T,
                        InterpolateError,
                    >(out@[j]),
            decreases points@.len() - i,
        {
            match self.interpolate(data, &points[i]) {
                Ok(v) => {
                    out[i] = v;
                },
                Err(e) => {
                    proof {
                        if ordered::<T>() && data.valid() {
                            assert(forall|j: int|
                                0 <= j < i ==> self.interpolation(*data, (#[trigger] points@[j])@) is Ok);
                        }
                    }
                    return Err(e);
                },
            }
            i = i + 1;
        }
        Ok(())
    }
}

/// Which neighbouring grid value a step takes.
#[derive(Debug, Clone, Copy, PartialEq, Eq)]
pub enum StepDirection {
    /// The grid value at or below the point.
    Lower,
    /// The grid value at or above the point.
    Upper,
}

/// Index of the grid coordinate that a step in `direction` takes for `p`.
pub open spec fn step_index<T: PartialOrd>(direction: StepDirection, s: Seq<T>, p: T) -> int {
    match direction {
        StepDirection::Lower => floor_index(s, p),
        StepDirection::Upper => ceil_index(s, p),
    }
}

/// Index of the grid coordinate that a step in `direction` takes for `p`.
pub fn find_step<T: PartialOrd>(direction: StepDirection, s: &Vec<T>, p: &T) -> (r: usize)
    requires
        s.len() >= 1,
    ensures
        r < s.len(),
        ordered::<T>() && crate::order::strictly_increasing(s@) ==> r == step_index(direction, s@, *p),
{
    match direction {
        StepDirection::Lower => find_floor(s, p),
        StepDirection::Upper => find_ceil(s, p),
    }
}

/// Step interpolation: the value at the previous (`Lower`) or next (`Upper`) grid
/// coordinate. One direction applies to every axis; otherwise there is one per axis.
#[derive(Debug, Clone, PartialEq)]
pub struct Step(pub Vec<StepDirection>);

/// Step to the previous grid value on every axis.
#[derive(Debug, Clone, Copy, PartialEq, Default)]
pub struct StepLower;

/// Step to the next grid value on every axis.
#[derive(Debug, Clone, Copy, PartialEq, Default)]
pub struct StepUpper;

impl Step {
    /// Step with one direction for every axis.
    pub fn new(directions: Vec<StepDirection>) -> (r: Self)
        ensures
            r.0 == directions,
    {
        Step(directions)
    }

    /// Step in `direction` on every axis.
    pub fn from(direction: StepDirection) -> (r: Self)
        ensures
            r.0@ == seq![direction],
    {
        Step(vec![direction])
    }

    /// Step to the previous grid value on every axis.
    pub fn lower() -> (r: Self)
        ensures
            r.0@ == seq![StepDirection::Lower],
    {
        Step(vec![StepDirection::Lower])
    }

    /// Step to the next grid value on every axis.
    pub fn upper() -> (r: Self)
        ensures
            r.0@ == seq![StepDirection::Upper],
    {
        Step(vec![StepDirection::Upper])
    }

    /// The direction applied to axis `d`: the single direction when one is given for
    /// every axis, otherwise the axis's own.
    pub open spec fn direction(&self, d: int) -> StepDirection {
        if self.0@.len() == 1 {
            self.0@[0]
        } else {
            self.0@[d]
        }
    }

    /// Outcome of checking the number of directions against `ndim` axes: one, or one
    /// per axis.
    pub open spec fn len_validation(&self, ndim: usize) -> Result<(), ValidateError> {
        if self.0@.len() == 1 || self.0@.len() == ndim {
            Ok(())
        } else {
            Err(
                ValidateError::PerAxisLen {
                    label: "Step",
                    noun: "directions",
                    ndim: ndim,
                    found: self.0@.len() as usize,
                },
            )
        }
    }

    /// Check that there is one direction, or one per axis of an `ndim`-axis interpolator.
    pub fn validate_len(&self, ndim: usize) -> (r: Result<(), ValidateError>)
        ensures
            r == self.len_validation(ndim),
    {
        let n = self.0.len();
        if n == 1 || n == ndim {
            Ok(())
        } else {
            Err(ValidateError::PerAxisLen { label: "Step", noun: "directions", ndim, found: n })
        }
    }

    /// The direction for axis `d`.
    pub fn direction_at(&self, d: usize, ndim: usize) -> (r: StepDirection)
        requires
            d < ndim,
            self.len_validation(ndim) is Ok,
        ensures
            r == self.direction(d as int),
    {
        if self.0.len() == 1 {
            self.0[0]
        } else {
            self.0[d]
        }
    }
}

/// The value at the grid point reached by stepping in `d0` for `p` in 1-D data.
pub open spec fn step_value_1d<T: PartialOrd>(data: InterpData1DBase<T>, d0: StepDirection, p: Seq<T>) -> T {
    data.values@[step_index(d0, data.axis(0), p[0])]
}

/// The value at the grid point reached by stepping in `d0`, `d1` for `p` in 2-D data.
pub open spec fn step_value_2d<T: PartialOrd>(
    data: InterpData2DBase<T>,
    d0: StepDirection,
    d1: StepDirection,
    p: Seq<T>,
) -> T {
    data.values@[step_index(d0, data.axis(0), p[0])]@[step_index(d1, data.axis(1), p[1])]
}

/// The value at the grid point reached by stepping in `d0`, `d1`, `d2` for `p` in 3-D
/// data.
pub open spec fn step_value_3d<T: PartialOrd>(
    data: InterpData3DBase<T>,
    d0: StepDirection,
    d1: StepDirection,
    d2: StepDirection,
    p: Seq<T>,
) -> T {
    data.values@[step_index(d0, data.axis(0), p[0])]@[step_index(
        d1,
        data.axis(1),
        p[1],
    )]@[step_index(d2, data.axis(2), p[2])]
}

/// Axis `d` of valid data is strictly increasing.
proof fn lemma_valid_axis<T: PartialOrd, V: Values<T, N>, const N: usize>(
    data: InterpDataBase<T, V, N>,
    d: int,
)
    requires
        data.valid(),
        0 <= d < N,
    ensures
        strictly_increasing(data.axis(d)),
{
    assert(data.dim_error(d) is None);
}

/// Step along the single axis of 1-D data.
pub fn step_1d<T: PartialOrd + Copy>(data: &InterpData1DBase<T>, d0: StepDirection, point: &[T; 1]) -> (r: T)
    requires
        data.shaped(),
    ensures
        ordered::<T>() && data.valid() ==> r == step_value_1d(*data, d0, point@),
{
    assert(data.axis(0).len() >= 2);
    proof {
        if ordered::<T>() && data.valid() {
            lemma_valid_axis(*data, 0);
        }
    }
    let i = find_step(d0, &data.grid[0], &point[0]);
    data.values[i]
}

/// Step along both axes of 2-D data.
pub fn step_2d<T: PartialOrd + Copy>(
    data: &InterpData2DBase<T>,
    d0: StepDirection,
    d1: StepDirection,
    point: &[T; 2],
) -> (r: T)
    requires
        data.shaped(),
    ensures
        ordered::<T>() && data.valid() ==> r == step_value_2d(*data, d0, d1, point@),
{
    assert(data.axis(0).len() >= 2);
    assert(data.axis(1).len() >= 2);
    proof {
        if ordered::<T>() && data.valid() {
            lemma_valid_axis(*data, 0);
            lemma_valid_axis(*data, 1);
        }
    }
    let i = find_step(d0, &data.grid[0], &point[0]);
    let j = find_step(d1, &data.grid[1], &point[1]);
    assert(data.values@[i as int]@.len() == data.axis(1).len());
    data.values[i][j]
}

/// Step along all three axes of 3-D data.
pub fn step_3d<T: PartialOrd + Copy>(
    data: &InterpData3DBase<T>,
    d0: StepDirection,
    d1: StepDirection,
    d2: StepDirection,
    point: &[T; 3],
) -> (r: T)
    requires
        data.shaped(),
    ensures
        ordered::<T>() && data.valid() ==> r == step_value_3d(*data, d0, d1, d2, point@),
{
    assert(data.axis(0).len() >= 2);
    assert(data.axis(1).len() >= 2);
    assert(data.axis(2).len() >= 2);
    proof {
        if ordered::<T>() && data.valid() {
            lemma_valid_axis(*data, 0);
            lemma_valid_axis(*data, 1);
            lemma_valid_axis(*data, 2);
        }
    }
    let i = find_step(d0, &data.grid[0], &point[0]);
    let j = find_step(d1, &data.grid[1], &point[1]);
    let k = find_step(d2, &data.grid[2], &point[2]);
    assert(data.values@[i as int]@.len() == data.axis(1).len());
    assert(data.values@[i as int]@[j as int]@.len() == data.axis(2).len());
    data.values[i][j][k]
}

impl<T: PartialOrd + Copy> Strategy<T, Vec<T>, 1> for Step {
    open spec fn interpolation(&self, data: InterpDataBase<T, Vec<T>, 1>, point: Seq<T>) -> Result<
        T,
        InterpolateError,
    > {
        Ok(step_value_1d(data, self.direction(0), point))
    }

    open spec fn validation(&self, data: InterpDataBase<T, Vec<T>, 1>) -> Result<(), ValidateError> {
        self.len_validation(1)
    }

    open spec fn initialized(&self, data: InterpDataBase<T, Vec<T>, 1>) -> (Self, Result<
        (),
        ValidateError,
    >) {
        (*self, Ok(()))
    }

    open spec fn extrapolates(&self) -> bool {
        false
    }

    fn validate(&self, data: &InterpDataBase<T, Vec<T>, 1>) -> (r: Result<(), ValidateError>) {
        self.validate_len(1)
    }

    fn init(&mut self, data: &InterpDataBase<T, Vec<T>, 1>) -> (r: Result<(), ValidateError>) {
        Ok(())
    }

    proof fn lemma_initialized(&self, data: InterpDataBase<T, Vec<T>, 1>) {
    }

    fn allow_extrapolate(&self) -> (r: bool) {
        false
    }

    fn interpolate(&self, data: &InterpDataBase<T, Vec<T>, 1>, point: &[T; 1]) -> (r: Result<
        T,
        InterpolateError,
    >) {
        Ok(step_1d(data, self.direction_at(0, 1), point))
    }
}

impl<T: PartialOrd + Copy> Strategy<T, Vec<Vec<T>>, 2> for Step {
    open spec fn interpolation(&self, data: InterpDataBase<T, Vec<Vec<T>>, 2>, point: Seq<T>) -> Result<
        T,
        InterpolateError,
    > {
        Ok(step_value_2d(data, self.direction(0), self.direction(1), point))
    }

    open spec fn validation(&self, data: InterpDataBase<T, Vec<Vec<T>>, 2>) -> Result<(), ValidateError> {
        self.len_validation(2)
    }

    open spec fn initialized(&self, data: InterpDataBase<T, Vec<Vec<T>>, 2>) -> (Self, Result<
        (),
        ValidateError,
    >) {
        (*self, Ok(()))
    }

    open spec fn extrapolates(&self) -> bool {
        false
    }

    fn validate(&self, data: &InterpDataBase<T, Vec<Vec<T>>, 2>) -> (r: Result<(), ValidateError>) {
        self.validate_len(2)
    }

    fn init(&mut self, data: &InterpDataBase<T, Vec<Vec<T>>, 2>) -> (r: Result<(), ValidateError>) {
        Ok(())
    }

    proof fn lemma_initialized(&self, data: InterpDataBase<T, Vec<Vec<T>>, 2>) {
    }

    fn allow_extrapolate(&self) -> (r: bool) {
        false
    }

    fn interpolate(&self, data: &InterpDataBase<T, Vec<Vec<T>>, 2>, point: &[T; 2]) -> (r: Result<
        T,
        InterpolateError,
    >) {
        Ok(step_2d(data, self.direction_at(0, 2), self.direction_at(1, 2), point))
    }
}

impl<T: PartialOrd + Copy> Strategy<T, Vec<Vec<Vec<T>>>, 3> for Step {
    open spec fn interpolation(&self, data: InterpDataBase<T, Vec<Vec<Vec<T>>>, 3>, point: Seq<T>) -> Result<
        T,
        InterpolateError,
    > {
        Ok(step_value_3d(data, self.direction(0), self.direction(1), self.direction(2), point))
    }

    open spec fn validation(&self, data: InterpDataBase<T, Vec<Vec<Vec<T>>>, 3>) -> Result<(), ValidateError> {
        self.len_validation(3)
    }

    open spec fn initialized(&self, data: InterpDataBase<T, Vec<Vec<Vec<T>>>, 3>) -> (Self, Result<
        (),
        ValidateError,
    >) {
        (*self, Ok(()))
    }

    open spec fn extrapolates(&self) -> bool {
        false
    }

    fn validate(&self, data: &InterpDataBase<T, Vec<Vec<Vec<T>>>, 3>) -> (r: Result<(), ValidateError>) {
        self.validate_len(3)
    }

    fn init(&mut self, data: &InterpDataBase<T, Vec<Vec<Vec<T>>>, 3>) -> (r: Result<(), ValidateError>) {
        Ok(())
    }

    proof fn lemma_initialized(&self, data: InterpDataBase<T, Vec<Vec<Vec<T>>>, 3>) {
    }

    fn allow_extrapolate(&self) -> (r: bool) {
        false
    }

    fn interpolate(&self, data: &InterpDataBase<T, Vec<Vec<Vec<T>>>, 3>, point: &[T; 3]) -> (r: Result<
        T,
        InterpolateError,
    >) {
        Ok(step_3d(data, self.direction_at(0, 3), self.direction_at(1, 3), self.direction_at(2, 3), point))
    }
}

impl<T: PartialOrd + Copy> Strategy<T, Vec<T>, 1> for StepLower {
    open spec fn interpolation(&self, data: InterpDataBase<T, Vec<T>, 1>, point: Seq<T>) -> Result<
        T,
        InterpolateError,
    > {
        Ok(step_value_1d(data, StepDirection::Lower, point))
    }

    open spec fn validation(&self, data: InterpDataBase<T, Vec<T>, 1>) -> Result<(), ValidateError> {
        Ok(())
    }

    open spec fn initialized(&self, data: InterpDataBase<T, Vec<T>, 1>) -> (Self, Result<
        (),
        ValidateError,
    >) {
        (*self, Ok(()))
    }

    open spec fn extrapolates(&self) -> bool {
        false
    }

    fn validate(&self, data: &InterpDataBase<T, Vec<T>, 1>) -> (r: Result<(), ValidateError>) {
        Ok(())
    }

    fn init(&mut self, data: &InterpDataBase<T, Vec<T>, 1>) -> (r: Result<(), ValidateError>) {
        Ok(())
    }

    proof fn lemma_initialized(&self, data: InterpDataBase<T, Vec<T>, 1>) {
    }

    fn allow_extrapolate(&self) -> (r: bool) {
        false
    }

    fn interpolate(&self, data: &InterpDataBase<T, Vec<T>, 1>, point: &[T; 1]) -> (r: Result<
        T,
        InterpolateError,
    >) {
        Ok(step_1d(data, StepDirection::Lower, point))
    }
}

impl<T: PartialOrd + Copy> Strategy<T, Vec<Vec<T>>, 2> for StepLower {
    open spec fn interpolation(&self, data: InterpDataBase<T, Vec<Vec<T>>, 2>, point: Seq<T>) -> Result<
        T,
        InterpolateError,
    > {
        Ok(step_value_2d(data, StepDirection::Lower, StepDirection::Lower, point))
    }

    open spec fn validation(&self, data: InterpDataBase<T, Vec<Vec<T>>, 2>) -> Result<(), ValidateError> {
        Ok(())
    }

    open spec fn initialized(&self, data: InterpDataBase<T, Vec<Vec<T>>, 2>) -> (Self, Result<
        (),
        ValidateError,
    >) {
        (*self, Ok(()))
    }

    open spec fn extrapolates(&self) -> bool {
        false
    }

    fn validate(&self, data: &InterpDataBase<T, Vec<Vec<T>>, 2>) -> (r: Result<(), ValidateError>) {
        Ok(())
    }

    fn init(&mut self, data: &InterpDataBase<T, Vec<Vec<T>>, 2>) -> (r: Result<(), ValidateError>) {
        Ok(())
    }

    proof fn lemma_initialized(&self, data: InterpDataBase<T, Vec<Vec<T>>, 2>) {
    }

    fn allow_extrapolate(&self) -> (r: bool) {
        false
    }

    fn interpolate(&self, data: &InterpDataBase<T, Vec<Vec<T>>, 2>, point: &[T; 2]) -> (r: Result<
        T,
        InterpolateError,
    >) {
        Ok(step_2d(data, StepDirection::Lower, StepDirection::Lower, point))
    }
}

impl<T: PartialOrd + Copy> Strategy<T, Vec<Vec<Vec<T>>>, 3> for StepLower {
    open spec fn interpolation(&self, data: InterpDataBase<T, Vec<Vec<Vec<T>>>, 3>, point: Seq<T>) -> Result<
        T,
        InterpolateError,
    > {
        Ok(step_value_3d(data, StepDirection::Lower, StepDirection::Lower, StepDirection::Lower, point))
    }

    open spec fn validation(&self, data: InterpDataBase<T, Vec<Vec<Vec<T>>>, 3>) -> Result<(), ValidateError> {
        Ok(())
    }

    open spec fn initialized(&self, data: InterpDataBase<T, Vec<Vec<Vec<T>>>, 3>) -> (Self, Result<
        (),
        ValidateError,
    >) {
        (*self, Ok(()))
    }

    open spec fn extrapolates(&self) -> bool {
        false
    }

    fn validate(&self, data: &InterpDataBase<T, Vec<Vec<Vec<T>>>, 3>) -> (r: Result<(), ValidateError>) {
        Ok(())
    }

    fn init(&mut self, data: &InterpDataBase<T, Vec<Vec<Vec<T>>>, 3>) -> (r: Result<(), ValidateError>) {
        Ok(())
    }

    proof fn lemma_initialized(&self, data: InterpDataBase<T, Vec<Vec<Vec<T>>>, 3>) {
    }

    fn allow_extrapolate(&self) -> (r: bool) {
        false
    }

    fn interpolate(&self, data: &InterpDataBase<T, Vec<Vec<Vec<T>>>, 3>, point: &[T; 3]) -> (r: Result<
        T,
        InterpolateError,
    >) {
        Ok(step_3d(data, StepDirection::Lower, StepDirection::Lower, StepDirection::Lower, point))
    }
}

impl<T: PartialOrd + Copy> Strategy<T, Vec<T>, 1> for StepUpper {
    open spec fn interpolation(&self, data: InterpDataBase<T, Vec<T>, 1>, point: Seq<T>) -> Result<
        T,
        InterpolateError,
    > {
        Ok(step_value_1d(data, StepDirection::Upper, point))
    }

    open spec fn validation(&self, data: InterpDataBase<T, Vec<T>, 1>) -> Result<(), ValidateError> {
        Ok(())
    }

    open spec fn initialized(&self, data: InterpDataBase<T, Vec<T>, 1>) -> (Self, Result<
        (),
        ValidateError,
    >) {
        (*self, Ok(()))
    }

    open spec fn extrapolates(&self) -> bool {
        false
    }

    fn validate(&self, data: &InterpDataBase<T, Vec<T>, 1>) -> (r: Result<(), ValidateError>) {
        Ok(())
    }

    fn init(&mut self, data: &InterpDataBase<T, Vec<T>, 1>) -> (r: Result<(), ValidateError>) {
        Ok(())
    }

    proof fn lemma_initialized(&self, data: InterpDataBase<T, Vec<T>, 1>) {
    }

    fn allow_extrapolate(&self) -> (r: bool) {
        false
    }

    fn interpolate(&self, data: &InterpDataBase<T, Vec<T>, 1>, point: &[T; 1]) -> (r: Result<
        T,
        InterpolateError,
    >) {
        Ok(step_1d(data, StepDirection::Upper, point))
    }
}

impl<T: PartialOrd + Copy> Strategy<T, Vec<Vec<T>>, 2> for StepUpper {
    open spec fn interpolation(&self, data: InterpDataBase<T, Vec<Vec<T>>, 2>, point: Seq<T>) -> Result<
        T,
        InterpolateError,
    > {
        Ok(step_value_2d(data, StepDirection::Upper, StepDirection::Upper, point))
    }

    open spec fn validation(&self, data: InterpDataBase<T, Vec<Vec<T>>, 2>) -> Result<(), ValidateError> {
        Ok(())
    }

    open spec fn initialized(&self, data: InterpDataBase<T, Vec<Vec<T>>, 2>) -> (Self, Result<
        (),
        ValidateError,
    >) {
        (*self, Ok(()))
    }

    open spec fn extrapolates(&self) -> bool {
        false
    }

    fn validate(&self, data: &InterpDataBase<T, Vec<Vec<T>>, 2>) -> (r: Result<(), ValidateError>) {
        Ok(())
    }

    fn init(&mut self, data: &InterpDataBase<T, Vec<Vec<T>>, 2>) -> (r: Result<(), ValidateError>) {
        Ok(())
    }

    proof fn lemma_initialized(&self, data: InterpDataBase<T, Vec<Vec<T>>, 2>) {
    }

    fn allow_extrapolate(&self) -> (r: bool) {
        false
    }

    fn interpolate(&self, data: &InterpDataBase<T, Vec<Vec<T>>, 2>, point: &[T; 2]) -> (r: Result<
        T,
        InterpolateError,
    >) {
        Ok(step_2d(data, StepDirection::Upper, StepDirection::Upper, point))
    }
}

impl<T: PartialOrd + Copy> Strategy<T, Vec<Vec<Vec<T>>>, 3> for StepUpper {
    open spec fn interpolation(&self, data: InterpDataBase<T, Vec<Vec<Vec<T>>>, 3>, point: Seq<T>) -> Result<
        T,
        InterpolateError,
    > {
        Ok(step_value_3d(data, StepDirection::Upper, StepDirection::Upper, StepDirection::Upper, point))
    }

    open spec fn validation(&self, data: InterpDataBase<T, Vec<Vec<Vec<T>>>, 3>) -> Result<(), ValidateError> {
        Ok(())
    }

    open spec fn initialized(&self, data: InterpDataBase<T, Vec<Vec<Vec<T>>>, 3>) -> (Self, Result<
        (),
        ValidateError,
    >) {
        (*self, Ok(()))
    }

    open spec fn extrapolates(&self) -> bool {
        false
    }

    fn validate(&self, data: &InterpDataBase<T, Vec<Vec<Vec<T>>>, 3>) -> (r: Result<(), ValidateError>) {
        Ok(())
    }

    fn init(&mut self, data: &InterpDataBase<T, Vec<Vec<Vec<T>>>, 3>) -> (r: Result<(), ValidateError>) {
        Ok(())
    }

    proof fn lemma_initialized(&self, data: InterpDataBase<T, Vec<Vec<Vec<T>>>, 3>) {
    }

    fn allow_extrapolate(&self) -> (r: bool) {
        false
    }

    fn interpolate(&self, data: &InterpDataBase<T, Vec<Vec<Vec<T>>>, 3>, point: &[T; 3]) -> (r: Result<
        T,
        InterpolateError,
    >) {
        Ok(step_3d(data, StepDirection::Upper, StepDirection::Upper, StepDirection::Upper, point))
    }
}

/// Nearest-neighbour interpolation: the value at the closer of the two grid
/// coordinates bracketing the point on each axis; a point midway takes the upper one.
#[derive(Debug, Clone, Copy, PartialEq, Default)]
pub struct Nearest;

/// A primitive integer coordinate type of at most 64 bits: its values, and so the
/// distances between them, are exact in `i128`.
pub trait Integer: PartialOrd + Copy {
    /// The coordinate's value.
    spec fn value(self) -> int;

    /// The coordinate's value, widened to `i128`.
    fn widen(self) -> (r: i128)
        ensures
            r == self.value(),
    ;

    /// Comparisons are total and follow the values, which lie in the 64-bit ranges.
    proof fn lemma_integer(a: Self, b: Self)
        ensures
            ordered::<Self>(),
            le(a, b) <==> a.value() <= b.value(),
            lt(a, b) <==> a.value() < b.value(),
            -0x8000_0000_0000_0000 <= a.value() <= 0xffff_ffff_ffff_ffff,
    ;
}

impl Integer for i8 {
    open spec fn value(self) -> int {
        self as int
    }

    fn widen(self) -> (r: i128) {
        self as i128
    }

    proof fn lemma_integer(a: Self, b: Self) {
    }
}

impl Integer for i16 {
    open spec fn value(self) -> int {
        self as int
    }

    fn widen(self) -> (r: i128) {
        self as i128
    }

    proof fn lemma_integer(a: Self, b: Self) {
    }
}

impl Integer for i32 {
    open spec fn value(self) -> int {
        self as int
    }

    fn widen(self) -> (r: i128) {
        self as i128
    }

    proof fn lemma_integer(a: Self, b: Self) {
    }
}

impl Integer for i64 {
    open spec fn value(self) -> int {
        self as int
    }

    fn widen(self) -> (r: i128) {
        self as i128
    }

    proof fn lemma_integer(a: Self, b: Self) {
    }
}

impl Integer for isize {
    open spec fn value(self) -> int {
        self as int
    }

    fn widen(self) -> (r: i128) {
        self as i128
    }

    proof fn lemma_integer(a: Self, b: Self) {
    }
}

impl Integer for u8 {
    open spec fn value(self) -> int {
        self as int
    }

    fn widen(self) -> (r: i128) {
        self as i128
    }

    proof fn lemma_integer(a: Self, b: Self) {
    }
}

impl Integer for u16 {
    open spec fn value(self) -> int {
        self as int
    }

    fn widen(self) -> (r: i128) {
        self as i128
    }

    proof fn lemma_integer(a: Self, b: Self) {
    }
}

impl Integer for u32 {
    open spec fn value(self) -> int {
        self as int
    }

    fn widen(self) -> (r: i128) {
        self as i128
    }

    proof fn lemma_integer(a: Self, b: Self) {
    }
}

impl Integer for u64 {
    open spec fn value(self) -> int {
        self as int
    }

    fn widen(self) -> (r: i128) {
        self as i128
    }

    proof fn lemma_integer(a: Self, b: Self) {
    }
}

impl Integer for usize {
    open spec fn value(self) -> int {
        self as int
    }

    fn widen(self) -> (r: i128) {
        self as i128
    }

    proof fn lemma_integer(a: Self, b: Self) {
    }
}

/// Index of the grid coordinate nearest to `p` among the two bracketing it; ties go to
/// the upper one.
pub open spec fn nearest_index<T: Integer>(s: Seq<T>, p: T) -> int {
    let l = bracket_index(s, p);
    if p.value() - s[l].value() < s[l + 1].value() - p.value() {
        l
    } else {
        l + 1
    }
}

/// Index of the grid coordinate nearest to `p`; see [`nearest_index`].
pub fn find_nearest<T: Integer>(s: &Vec<T>, p: T) -> (r: usize)
    requires
        s.len() >= 2,
    ensures
        r < s.len(),
        strictly_increasing(s@) ==> r == nearest_index(s@, p),
{
    proof {
        T::lemma_integer(p, p);
    }
    let l = find_bracket(s, &p);
    proof {
        T::lemma_integer(s@[l as int], p);
        T::lemma_integer(s@[l + 1], p);
    }
    let below = p.widen() - s[l].widen();
    let above = s[l + 1].widen() - p.widen();
    if below < above {
        l
    } else {
        l + 1
    }
}

impl<T: Integer> Strategy<T, Vec<T>, 1> for Nearest {
    open spec fn interpolation(&self, data: InterpDataBase<T, Vec<T>, 1>, point: Seq<T>) -> Result<
        T,
        InterpolateError,
    > {
        Ok(data.values@[nearest_index(data.axis(0), point[0])])
    }

    open spec fn validation(&self, data: InterpDataBase<T, Vec<T>, 1>) -> Result<(), ValidateError> {
        Ok(())
    }

    open spec fn initialized(&self, data: InterpDataBase<T, Vec<T>, 1>) -> (Self, Result<
        (),
        ValidateError,
    >) {
        (*self, Ok(()))
    }

    open spec fn extrapolates(&self) -> bool {
        false
    }

    fn validate(&self, data: &InterpDataBase<T, Vec<T>, 1>) -> (r: Result<(), ValidateError>) {
        Ok(())
    }

    fn init(&mut self, data: &InterpDataBase<T, Vec<T>, 1>) -> (r: Result<(), ValidateError>) {
        Ok(())
    }

    proof fn lemma_initialized(&self, data: InterpDataBase<T, Vec<T>, 1>) {
    }

    fn allow_extrapolate(&self) -> (r: bool) {
        false
    }

    fn interpolate(&self, data: &InterpDataBase<T, Vec<T>, 1>, point: &[T; 1]) -> (r: Result<
        T,
        InterpolateError,
    >) {
        assert(data.axis(0).len() >= 2);
        proof {
            if data.valid() {
                lemma_valid_axis(*data, 0);
            }
        }
        let i = find_nearest(&data.grid[0], point[0]);
        Ok(data.values[i])
    }
}

impl<T: Integer> Strategy<T, Vec<Vec<T>>, 2> for Nearest {
    open spec fn interpolation(&self, data: InterpDataBase<T, Vec<Vec<T>>, 2>, point: Seq<T>) -> Result<
        T,
        InterpolateError,
    > {
        Ok(data.values@[nearest_index(data.axis(0), point[0])]@[nearest_index(data.axis(1), point[1])])
    }

    open spec fn validation(&self, data: InterpDataBase<T, Vec<Vec<T>>, 2>) -> Result<(), ValidateError> {
        Ok(())
    }

    open spec fn initialized(&self, data: InterpDataBase<T, Vec<Vec<T>>, 2>) -> (Self, Result<
        (),
        ValidateError,
    >) {
        (*self, Ok(()))
    }

    open spec fn extrapolates(&self) -> bool {
        false
    }

    fn validate(&self, data: &InterpDataBase<T, Vec<Vec<T>>, 2>) -> (r: Result<(), ValidateError>) {
        Ok(())
    }

    fn init(&mut self, data: &InterpDataBase<T, Vec<Vec<T>>, 2>) -> (r: Result<(), ValidateError>) {
        Ok(())
    }

    proof fn lemma_initialized(&self, data: InterpDataBase<T, Vec<Vec<T>>, 2>) {
    }

    fn allow_extrapolate(&self) -> (r: bool) {
        false
    }

    fn interpolate(&self, data: &InterpDataBase<T, Vec<Vec<T>>, 2>, point: &[T; 2]) -> (r: Result<
        T,
        InterpolateError,
    >) {
        assert(data.axis(0).len() >= 2);
        assert(data.axis(1).len() >= 2);
        proof {
            if data.valid() {
                lemma_valid_axis(*data, 0);
                lemma_valid_axis(*data, 1);
            }
        }
        let i = find_nearest(&data.grid[0], point[0]);
        let j = find_nearest(&data.grid[1], point[1]);
        assert(data.values@[i as int]@.len() == data.axis(1).len());
        Ok(data.values[i][j])
    }
}

impl<T: Integer> Strategy<T, Vec<Vec<Vec<T>>>, 3> for Nearest {
    open spec fn interpolation(&self, data: InterpDataBase<T, Vec<Vec<Vec<T>>>, 3>, point: Seq<T>) -> Result<
        T,
        InterpolateError,
    > {
        Ok(data.values@[nearest_index(data.axis(0), point[0])]@[nearest_index(data.axis(1), point[1])]@[nearest_index(
            data.axis(2),
            point[2],
        )])
    }

    open spec fn validation(&self, data: InterpDataBase<T, Vec<Vec<Vec<T>>>, 3>) -> Result<(), ValidateError> {
        Ok(())
    }

    open spec fn initialized(&self, data: InterpDataBase<T, Vec<Vec<Vec<T>>>, 3>) -> (Self, Result<
        (),
        ValidateError,
    >) {
        (*self, Ok(()))
    }

    open spec fn extrapolates(&self) -> bool {
        false
    }

    fn validate(&self, data: &InterpDataBase<T, Vec<Vec<Vec<T>>>, 3>) -> (r: Result<(), ValidateError>) {
        Ok(())
    }

    fn init(&mut self, data: &InterpDataBase<T, Vec<Vec<Vec<T>>>, 3>) -> (r: Result<(), ValidateError>) {
        Ok(())
    }

    proof fn lemma_initialized(&self, data: InterpDataBase<T, Vec<Vec<Vec<T>>>, 3>) {
    }

    fn allow_extrapolate(&self) -> (r: bool) {
        false
    }

    fn interpolate(&self, data: &InterpDataBase<T, Vec<Vec<Vec<T>>>, 3>, point: &[T; 3]) -> (r: Result<
        T,
        InterpolateError,
    >) {
        assert(data.axis(0).len() >= 2);
        assert(data.axis(1).len() >= 2);
        assert(data.axis(2).len() >= 2);
        proof {
            if data.valid() {
                lemma_valid_axis(*data, 0);
                lemma_valid_axis(*data, 1);
                lemma_valid_axis(*data, 2);
            }
        }
        let i = find_nearest(&data.grid[0], point[0]);
        let j = find_nearest(&data.grid[1], point[1]);
        let k = find_nearest(&data.grid[2], point[2]);
        assert(data.values@[i as int]@.len() == data.axis(1).len());
        assert(data.values@[i as int]@[j as int]@.len() == data.axis(2).len());
        Ok(data.values[i][j][k])
    }
}

} // verus!
