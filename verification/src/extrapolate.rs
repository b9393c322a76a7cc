//! The extrapolation setting and how interpolators resolve it before calling their
//! strategy, for one point and for a batch of points. Written once for any number of
//! axes `N`; the 1-D, 2-D and 3-D interpolators delegate here.

use vstd::prelude::*;
use core::ops::{Add, Rem, Sub};
use crate::data::{InterpDataBase, Values};
use crate::error::{InterpolateError, OutOfBoundsAt};
use crate::order::{
    clamp, clamp_spec, in_range, in_range_exec, obeys_order, ordered, wrap, wrap_defined, wrap_spec,
};
use crate::strategy::Strategy;

verus! {

/// Extrapolation setting: what happens when a point lies beyond the grid.
#[derive(Clone, Copy, Debug, PartialEq, Default)]
#[non_exhaustive]
pub enum Extrapolate<T> {
    /// Evaluate beyond the grid limits; only for strategies that allow it.
    Enable,
    /// Return this value instead.
    Fill(T),
    /// Restrict the point to the grid limits.
    Clamp,
    /// Wrap the point around to the other end of (periodic) data.
    Wrap,
    /// Return an error.
    #[default]
    Error,
}

/// The views of a sequence of points.
pub open spec fn views<T, const N: usize>(points: Seq<[T; N]>) -> Seq<Seq<T>> {
    points.map_values(|p: [T; N]| p@)
}

/// What a batch of interpolations reports: every point's value in order, or the error
/// of the first point that fails.
pub open spec fn batch_outcome<T: PartialOrd, V: Values<T, N>, S: Strategy<T, V, N>, const N: usize>(
    s: S,
    data: InterpDataBase<T, V, N>,
    points: Seq<Seq<T>>,
    r: Result<(), InterpolateError>,
    out: Seq<T>,
) -> bool {
    match r {
        Ok(_) => forall|i: int|
            0 <= i < points.len() ==> s.interpolation(data, #[trigger] points[i]) == Ok::<
                T,
                InterpolateError,
            >(out[i]),
        Err(e) => exists|k: int|
            0 <= k < points.len() && (forall|i: int|
                0 <= i < k ==> s.interpolation(data, #[trigger] points[i]) is Ok) && s.interpolation(
                data,
                points[k],
            ) == Err::<T, InterpolateError>(e),
    }
}

impl<T: PartialOrd, V: Values<T, N>, const N: usize> InterpDataBase<T, V, N> {
    /// First coordinate of axis `d`.
    pub open spec fn lo(&self, d: int) -> T {
        self.axis(d)[0]
    }

    /// Last coordinate of axis `d`.
    pub open spec fn hi(&self, d: int) -> T {
        self.axis(d).last()
    }

    /// Coordinate `x` lies within the extent of axis `d`.
    pub open spec fn in_axis(&self, d: int, x: T) -> bool {
        in_range(x, self.lo(d), self.hi(d))
    }

    /// `point` lies within the grid on every axis.
    pub open spec fn contains_point(&self, point: Seq<T>) -> bool {
        forall|d: int| 0 <= d < N ==> #[trigger] self.in_axis(d, point[d])
    }

    /// One entry, tagged with `index`, per axis below `d` on which `point` leaves the
    /// grid, in axis order.
    pub open spec fn out_of_bounds_upto(&self, point: Seq<T>, index: usize, d: int) -> Seq<
        OutOfBoundsAt,
    >
        decreases d,
    {
        if d <= 0 {
            Seq::empty()
        } else {
            let prev = self.out_of_bounds_upto(point, index, d - 1);
            if self.in_axis(d - 1, point[d - 1]) {
                prev
            } else {
                prev.push(OutOfBoundsAt { index: index, dim: (d - 1) as usize })
            }
        }
    }

    /// The out-of-bounds entries of the first `n` points of a batch, point by point.
    pub open spec fn out_of_bounds_batch(&self, points: Seq<Seq<T>>, n: int) -> Seq<OutOfBoundsAt>
        decreases n,
    {
        if n <= 0 {
            Seq::empty()
        } else {
            self.out_of_bounds_batch(points, n - 1) + self.out_of_bounds_upto(
                points[n - 1],
                (n - 1) as usize,
                N as int,
            )
        }
    }

    /// `point` with every coordinate clamped into its axis's extent.
    pub open spec fn clamped(&self, point: Seq<T>) -> Seq<T> {
        Seq::new(N as nat, |d: int| clamp_spec(point[d], self.lo(d), self.hi(d)))
    }

    /// Positions, in order, of the first `n` points that lie within the grid.
    pub open spec fn inbound_positions(&self, points: Seq<Seq<T>>, n: int) -> Seq<int>
        decreases n,
    {
        if n <= 0 {
            Seq::empty()
        } else {
            let prev = self.inbound_positions(points, n - 1);
            if self.contains_point(points[n - 1]) {
                prev.push(n - 1)
            } else {
                prev
            }
        }
    }

    /// No entry is reported below axis `d` exactly when `point` lies within the grid on
    /// those axes.
    pub proof fn lemma_out_of_bounds_upto(&self, point: Seq<T>, index: usize, d: int)
        requires
            0 <= d <= N,
        ensures
            self.out_of_bounds_upto(point, index, d).len() == 0 <==> (forall|k: int|
                0 <= k < d ==> #[trigger] self.in_axis(k, point[k])),
        decreases d,
    {
        if d > 0 {
            self.lemma_out_of_bounds_upto(point, index, d - 1);
        }
    }
}

impl<
    T: PartialOrd + Add<Output = T> + Sub<Output = T> + Rem<Output = T>,
    V: Values<T, N>,
    const N: usize,
> InterpDataBase<T, V, N> {
    /// `point` with every coordinate wrapped around its axis's extent.
    pub open spec fn wrapped(&self, point: Seq<T>) -> Seq<T> {
        Seq::new(N as nat, |d: int| wrap_spec(point[d], self.lo(d), self.hi(d)))
    }

    /// `point` wrapped if it lies beyond the grid, and unchanged otherwise.
    pub open spec fn wrapped_if_outside(&self, point: Seq<T>) -> Seq<T> {
        if self.contains_point(point) {
            point
        } else {
            self.wrapped(point)
        }
    }

    /// Wrapping `point`, if it lies beyond the grid, is defined on every axis.
    pub open spec fn wrap_ready(&self, point: Seq<T>) -> bool {
        &&& obeys_order::<T>()
        &&& !self.contains_point(point) ==> forall|d: int|
            0 <= d < N ==> #[trigger] wrap_defined(point[d], self.lo(d), self.hi(d))
    }
}

/// What interpolating `data` at `point` under `extrapolate` returns: the strategy's value
/// at the point when it lies within the grid; otherwise, by setting, the strategy's
/// value at the point itself (`Enable`), the fill value, the strategy's value at the
/// clamped or wrapped point, or an out-of-bounds error naming every axis the point left.
pub open spec fn interpolate_outcome<
    T: PartialOrd + Add<Output = T> + Sub<Output = T> + Rem<Output = T>,
    V: Values<T, N>,
    S: Strategy<T, V, N>,
    const N: usize,
>(
    data: InterpDataBase<T, V, N>,
    strategy: S,
    extrapolate: Extrapolate<T>,
    point: Seq<T>,
    r: Result<T, InterpolateError>,
) -> bool {
    if data.contains_point(point) {
        r == strategy.interpolation(data, point)
    } else {
        match extrapolate {
            Extrapolate::Enable => r == strategy.interpolation(data, point),
            Extrapolate::Fill(v) => r == Ok::<T, InterpolateError>(v),
            Extrapolate::Clamp => r == strategy.interpolation(data, data.clamped(point)),
            Extrapolate::Wrap => r == strategy.interpolation(data, data.wrapped(point)),
            Extrapolate::Error => (r matches Err(InterpolateError::OutOfBounds(v)) && v@
                == data.out_of_bounds_upto(point, 0, N as int)),
        }
    }
}

/// Every point of a batch that wrapping would touch can be wrapped.
pub open spec fn batch_wrap_ready<
    T: PartialOrd + Add<Output = T> + Sub<Output = T> + Rem<Output = T>,
    V: Values<T, N>,
    const N: usize,
>(data: InterpDataBase<T, V, N>, points: Seq<Seq<T>>) -> bool {
    forall|i: int| 0 <= i < points.len() ==> data.wrap_ready(#[trigger] points[i])
}

/// What a batch call reports under `extrapolate`, with `out` the output slice before
/// (`before`) and after (`after`) the call.
pub open spec fn batch_into_outcome<
    T: PartialOrd + Add<Output = T> + Sub<Output = T> + Rem<Output = T>,
    V: Values<T, N>,
    S: Strategy<T, V, N>,
    const N: usize,
>(
    data: InterpDataBase<T, V, N>,
    strategy: S,
    extrapolate: Extrapolate<T>,
    points: Seq<Seq<T>>,
    r: Result<(), InterpolateError>,
    before: Seq<T>,
    after: Seq<T>,
) -> bool {
    match extrapolate {
        Extrapolate::Enable => batch_outcome(strategy, data, points, r, after),
        Extrapolate::Clamp => batch_outcome(
            strategy,
            data,
            points.map_values(|p: Seq<T>| data.clamped(p)),
            r,
            after,
        ),
        Extrapolate::Wrap => batch_outcome(
            strategy,
            data,
            points.map_values(|p: Seq<T>| data.wrapped_if_outside(p)),
            r,
            after,
        ),
        Extrapolate::Fill(v) => {
            let inb = data.inbound_positions(points, points.len() as int);
            let sub = inb.map_values(|i: int| points[i]);
            match r {
                Ok(_) => forall|i: int|
                    0 <= i < points.len() ==> if data.contains_point(#[trigger] points[i]) {
                        strategy.interpolation(data, points[i]) == Ok::<T, InterpolateError>(
                            after[i],
                        )
                    } else {
                        after[i] == v
                    },
                Err(e) => (forall|i: int| 0 <= i < after.len() ==> #[trigger] after[i] == v)
                    && exists|k: int|
                    0 <= k < sub.len() && (forall|j: int|
                        0 <= j < k ==> strategy.interpolation(data, #[trigger] sub[j]) is Ok)
                        && strategy.interpolation(data, sub[k]) == Err::<T, InterpolateError>(e),
            }
        },
        Extrapolate::Error => {
            let errs = data.out_of_bounds_batch(points, points.len() as int);
            if errs.len() > 0 {
                (r matches Err(InterpolateError::OutOfBounds(v)) && v@ == errs) && after == before
            } else {
                batch_outcome(strategy, data, points, r, after)
            }
        },
    }
}

/// First coordinate of axis `d`.
fn axis_lo<T: PartialOrd + Copy, V: Values<T, N>, const N: usize>(
    data: &InterpDataBase<T, V, N>,
    d: usize,
) -> (r: T)
    requires
        data.shaped(),
        d < N,
    ensures
        r == data.lo(d as int),
{
    assert(data.axis(d as int).len() >= 2);
    data.grid[d][0]
}

/// Last coordinate of axis `d`.
fn axis_hi<T: PartialOrd + Copy, V: Values<T, N>, const N: usize>(
    data: &InterpDataBase<T, V, N>,
    d: usize,
) -> (r: T)
    requires
        data.shaped(),
        d < N,
    ensures
        r == data.hi(d as int),
{
    assert(data.axis(d as int).len() >= 2);
    let g = &data.grid[d];
    g[g.len() - 1]
}

/// Is `point` outside the grid on any axis?
pub fn out_of_bounds<T: PartialOrd + Copy, V: Values<T, N>, const N: usize>(
    data: &InterpDataBase<T, V, N>,
    point: &[T; N],
) -> (r: bool)
    requires
        data.shaped(),
    ensures
        obeys_order::<T>() ==> r == !data.contains_point(point@),
{
    let mut d: usize = 0;
    while d < N
        invariant
            data.shaped(),
            d <= N,
            obeys_order::<T>() ==> forall|k: int| 0 <= k < d ==> #[trigger] data.in_axis(k, point@[k]),
        decreases N - d,
    {
        if !in_range_exec(&point[d], &axis_lo(data, d), &axis_hi(data, d)) {
            proof {
                if obeys_order::<T>() {
                    assert(!data.in_axis(d as int, point@[d as int]));
                }
            }
            return true;
        }
        d = d + 1;
    }
    false
}

/// `point` clamped into the grid on every axis.
pub fn clamp_point<T: PartialOrd + Copy, V: Values<T, N>, const N: usize>(
    data: &InterpDataBase<T, V, N>,
    point: &[T; N],
) -> (r: [T; N])
    requires
        data.shaped(),
    ensures
        obeys_order::<T>() ==> r@ == data.clamped(point@),
{
    let mut c = *point;
    let mut d: usize = 0;
    while d < N
        invariant
            data.shaped(),
            d <= N,
            c@.len() == N,
            forall|k: int| d <= k < N ==> c@[k] == point@[k],
            obeys_order::<T>() ==> forall|k: int|
                0 <= k < d ==> c@[k] == #[trigger] clamp_spec(point@[k], data.lo(k), data.hi(k)),
        decreases N - d,
    {
        c[d] = clamp(point[d], axis_lo(data, d), axis_hi(data, d));
        d = d + 1;
    }
    proof {
        if obeys_order::<T>() {
            assert(c@ =~= data.clamped(point@));
        }
    }
    c
}

/// `point` wrapped around the grid on every axis.
pub fn wrap_point<
    T: PartialOrd + Copy + Add<Output = T> + Sub<Output = T> + Rem<Output = T>,
    V: Values<T, N>,
    const N: usize,
>(data: &InterpDataBase<T, V, N>, point: &[T; N]) -> (r: [T; N])
    requires
        data.shaped(),
        forall|d: int| 0 <= d < N ==> #[trigger] wrap_defined(point@[d], data.lo(d), data.hi(d)),
    ensures
        r@ == data.wrapped(point@),
{
    let mut c = *point;
    let mut d: usize = 0;
    while d < N
        invariant
            data.shaped(),
            d <= N,
            c@.len() == N,
            forall|k: int| 0 <= k < N ==> #[trigger] wrap_defined(point@[k], data.lo(k), data.hi(k)),
            forall|k: int|
                0 <= k < d ==> c@[k] == #[trigger] wrap_spec(point@[k], data.lo(k), data.hi(k)),
        decreases N - d,
    {
        assert(wrap_defined(point@[d as int], data.lo(d as int), data.hi(d as int)));
        c[d] = wrap(point[d], axis_lo(data, d), axis_hi(data, d));
        d = d + 1;
    }
    assert(c@ =~= data.wrapped(point@));
    c
}

/// Interpolate `data` at `point` with `strategy`, resolving `extrapolate` first.
pub fn interpolate<
    T: PartialOrd + Copy + Add<Output = T> + Sub<Output = T> + Rem<Output = T>,
    V: Values<T, N>,
    S: Strategy<T, V, N>,
    const N: usize,
>(
    data: &InterpDataBase<T, V, N>,
    strategy: &S,
    extrapolate: &Extrapolate<T>,
    point: &[T; N],
) -> (r: Result<T, InterpolateError>)
    requires
        data.shaped(),
        strategy.validation(*data) is Ok,
        *extrapolate is Wrap ==> data.wrap_ready(point@),
    ensures
        ordered::<T>() && data.valid() ==> interpolate_outcome(
            *data,
            *strategy,
            *extrapolate,
            point@,
            r,
        ),
{
    let mut errors: Vec<OutOfBoundsAt> = Vec::new();
    let mut dim: usize = 0;
    while dim < N
        invariant
            data.shaped(),
            strategy.validation(*data) is Ok,
            *extrapolate is Wrap ==> data.wrap_ready(point@),
            dim <= N,
            obeys_order::<T>() && *extrapolate is Error ==> errors@ == data.out_of_bounds_upto(
                point@,
                0,
                dim as int,
            ),
            obeys_order::<T>() && !(*extrapolate is Enable) && !(*extrapolate is Error) ==> forall|
                k: int,
            | 0 <= k < dim ==> #[trigger] data.in_axis(k, point@[k]),
            !(*extrapolate is Error) ==> errors@.len() == 0,
        decreases N - dim,
    {
        if !in_range_exec(&point[dim], &axis_lo(data, dim), &axis_hi(data, dim)) {
            proof {
                if obeys_order::<T>() {
                    assert(!data.in_axis(dim as int, point@[dim as int]));
                    assert(!data.contains_point(point@));
                }
            }
            match extrapolate {
                Extrapolate::Enable => {},
                Extrapolate::Fill(value) => {
                    return Ok(*value);
                },
                Extrapolate::Clamp => {
                    let clamped = clamp_point(data, point);
                    return strategy.interpolate(data, &clamped);
                },
                Extrapolate::Wrap => {
                    let wrapped = wrap_point(data, point);
                    return strategy.interpolate(data, &wrapped);
                },
                Extrapolate::Error => {
                    errors.push(OutOfBoundsAt::new(0, dim));
                },
            }
        }
        dim = dim + 1;
    }
    proof {
        if obeys_order::<T>() {
            data.lemma_out_of_bounds_upto(point@, 0, N as int);
        }
    }
    if errors.len() > 0 {
        return Err(InterpolateError::OutOfBounds(errors));
    }
    strategy.interpolate(data, point)
}

/// The strategy's batch outcome, stated over an array of points as the trait states it.
pub open spec fn batch_outcome_arrays<T: PartialOrd, V: Values<T, N>, S: Strategy<T, V, N>, const N: usize>(
    s: S,
    data: InterpDataBase<T, V, N>,
    points: Seq<[T; N]>,
    r: Result<(), InterpolateError>,
    out: Seq<T>,
) -> bool {
    match r {
        Ok(_) => forall|i: int|
            0 <= i < points.len() ==> s.interpolation(data, (#[trigger] points[i])@) == Ok::<
                T,
                InterpolateError,
            >(out[i]),
        Err(e) => exists|k: int|
            0 <= k < points.len() && (forall|i: int|
                0 <= i < k ==> s.interpolation(data, (#[trigger] points[i])@) is Ok)
                && s.interpolation(data, points[k]@) == Err::<T, InterpolateError>(e),
    }
}

/// The batch outcome over arrays is the batch outcome over their views.
proof fn lemma_batch_outcome_views<T: PartialOrd, V: Values<T, N>, S: Strategy<T, V, N>, const N: usize>(
    s: S,
    data: InterpDataBase<T, V, N>,
    points: Seq<[T; N]>,
    q: Seq<Seq<T>>,
    r: Result<(), InterpolateError>,
    out: Seq<T>,
)
    requires
        q.len() == points.len(),
        forall|i: int| 0 <= i < q.len() ==> #[trigger] q[i] == points[i]@,
        batch_outcome_arrays(s, data, points, r, out),
    ensures
        batch_outcome(s, data, q, r, out),
{
    match r {
        Ok(_) => {
            assert forall|i: int| 0 <= i < q.len() implies s.interpolation(data, #[trigger] q[i])
                == Ok::<T, InterpolateError>(out[i]) by {
                assert(q[i] == points[i]@);
            }
        },
        Err(e) => {
            let k = choose|k: int|
                0 <= k < points.len() && (forall|i: int|
                    0 <= i < k ==> s.interpolation(data, (#[trigger] points[i])@) is Ok)
                    && s.interpolation(data, points[k]@) == Err::<T, InterpolateError>(e);
            assert(q[k] == points[k]@);
            assert forall|i: int| 0 <= i < k implies s.interpolation(data, #[trigger] q[i]) is Ok by {
                assert(q[i] == points[i]@);
            }
        },
    }
}

/// Every point of `points` clamped into the grid.
pub fn clamp_points<T: PartialOrd + Copy, V: Values<T, N>, const N: usize>(
    data: &InterpDataBase<T, V, N>,
    points: &[[T; N]],
) -> (r: Vec<[T; N]>)
    requires
        data.shaped(),
    ensures
        r@.len() == points@.len(),
        obeys_order::<T>() ==> forall|i: int|
            0 <= i < points@.len() ==> (#[trigger] r@[i])@ == data.clamped(points@[i]@),
{
    let mut c: Vec<[T; N]> = Vec::new();
    let mut i: usize = 0;
    while i < points.len()
        invariant
            data.shaped(),
            i <= points@.len(),
            c@.len() == i,
            obeys_order::<T>() ==> forall|k: int|
                0 <= k < i ==> (#[trigger] c@[k])@ == data.clamped(points@[k]@),
        decreases points@.len() - i,
    {
        c.push(clamp_point(data, &points[i]));
        i = i + 1;
    }
    c
}

/// Every point of `points` that lies beyond the grid wrapped around it; the rest
/// unchanged.
pub fn wrap_points<
    T: PartialOrd + Copy + Add<Output = T> + Sub<Output = T> + Rem<Output = T>,
    V: Values<T, N>,
    const N: usize,
>(data: &InterpDataBase<T, V, N>, points: &[[T; N]]) -> (r: Vec<[T; N]>)
    requires
        data.shaped(),
        batch_wrap_ready(*data, views(points@)),
    ensures
        r@.len() == points@.len(),
        forall|i: int|
            0 <= i < points@.len() ==> (#[trigger] r@[i])@ == data.wrapped_if_outside(points@[i]@),
{
    let mut c: Vec<[T; N]> = Vec::new();
    let mut i: usize = 0;
    while i < points.len()
        invariant
            data.shaped(),
            batch_wrap_ready(*data, views(points@)),
            i <= points@.len(),
            c@.len() == i,
            forall|k: int|
                0 <= k < i ==> (#[trigger] c@[k])@ == data.wrapped_if_outside(points@[k]@),
        decreases points@.len() - i,
    {
        assert(views(points@)[i as int] == points@[i as int]@);
        assert(data.wrap_ready(points@[i as int]@));
        if out_of_bounds(data, &points[i]) {
            c.push(wrap_point(data, &points[i]));
        } else {
            c.push(points[i]);
        }
        i = i + 1;
    }
    c
}

/// Append the out-of-bounds entries of `point`, tagged with `index`, to `errors`.
fn push_out_of_bounds<T: PartialOrd + Copy, V: Values<T, N>, const N: usize>(
    data: &InterpDataBase<T, V, N>,
    point: &[T; N],
    index: usize,
    errors: &mut Vec<OutOfBoundsAt>,
)
    requires
        data.shaped(),
    ensures
        obeys_order::<T>() ==> final(errors)@ == old(errors)@ + data.out_of_bounds_upto(
            point@,
            index,
            N as int,
        ),
{
    let mut dim: usize = 0;
    while dim < N
        invariant
            data.shaped(),
            dim <= N,
            obeys_order::<T>() ==> errors@ == old(errors)@ + data.out_of_bounds_upto(
                point@,
                index,
                dim as int,
            ),
        decreases N - dim,
    {
        if !in_range_exec(&point[dim], &axis_lo(data, dim), &axis_hi(data, dim)) {
            errors.push(OutOfBoundsAt::new(index, dim));
        }
        proof {
            if obeys_order::<T>() {
                assert(errors@ =~= old(errors)@ + data.out_of_bounds_upto(
                    point@,
                    index,
                    dim + 1,
                ));
            }
        }
        dim = dim + 1;
    }
}

/// Interpolate `data` at each of `points` with `strategy`, resolving `extrapolate` once
/// for the whole batch and writing the values into `out`.
pub fn batch_interpolate_into<
    T: PartialOrd + Copy + Add<Output = T> + Sub<Output = T> + Rem<Output = T>,
    V: Values<T, N>,
    S: Strategy<T, V, N>,
    const N: usize,
>(
    data: &InterpDataBase<T, V, N>,
    strategy: &S,
    extrapolate: &Extrapolate<T>,
    points: &[[T; N]],
    out: &mut [T],
) -> (r: Result<(), InterpolateError>)
    requires
        data.shaped(),
        strategy.validation(*data) is Ok,
        *extrapolate is Wrap ==> batch_wrap_ready(*data, views(points@)),
    ensures
        final(out)@.len() == old(out)@.len(),
        old(out)@.len() != points@.len() ==> (r matches Err(
            InterpolateError::OutputLength { expected, found },
        ) && expected == points@.len() && found == old(out)@.len() && final(out)@ == old(out)@),
        old(out)@.len() == points@.len() && ordered::<T>() && data.valid() ==> batch_into_outcome(
            *data,
            *strategy,
            *extrapolate,
            views(points@),
            r,
            old(out)@,
            final(out)@,
        ),
{
    if out.len() != points.len() {
        return Err(InterpolateError::OutputLength { expected: points.len(), found: out.len() });
    }
    let ghost q = views(points@);
    match extrapolate {
        Extrapolate::Enable => {
            let r = strategy.batch_interpolate_into(data, points, out);
            proof {
                if ordered::<T>() && data.valid() {
                    assert(batch_outcome_arrays(*strategy, *data, points@, r, out@));
                    lemma_batch_outcome_views(*strategy, *data, points@, q, r, out@);
                }
            }
            r
        },
        Extrapolate::Clamp => {
            let clamped = clamp_points(data, points);
            let r = strategy.batch_interpolate_into(data, clamped.as_slice(), out);
            proof {
                if ordered::<T>() && data.valid() {
                    let cq = q.map_values(|p: Seq<T>| data.clamped(p));
                    assert(batch_outcome_arrays(*strategy, *data, clamped@, r, out@));
                    lemma_batch_outcome_views(*strategy, *data, clamped@, cq, r, out@);
                }
            }
            r
        },
        Extrapolate::Wrap => {
            let wrapped = wrap_points(data, points);
            let r = strategy.batch_interpolate_into(data, wrapped.as_slice(), out);
            proof {
                if ordered::<T>() && data.valid() {
                    let wq = q.map_values(|p: Seq<T>| data.wrapped_if_outside(p));
                    assert(batch_outcome_arrays(*strategy, *data, wrapped@, r, out@));
                    lemma_batch_outcome_views(*strategy, *data, wrapped@, wq, r, out@);
                }
            }
            r
        },
        Extrapolate::Fill(value) => {
            batch_fill(data, strategy, *value, points, out)
        },
        Extrapolate::Error => {
            let mut errors: Vec<OutOfBoundsAt> = Vec::new();
            let mut i: usize = 0;
            while i < points.len()
                invariant
                    data.shaped(),
                    i <= points@.len(),
                    q == views(points@),
                    obeys_order::<T>() ==> errors@ == data.out_of_bounds_batch(q, i as int),
                decreases points@.len() - i,
            {
                push_out_of_bounds(data, &points[i], i, &mut errors);
                proof {
                    if obeys_order::<T>() {
                        assert(q[i as int] == points@[i as int]@);
                        assert(errors@ =~= data.out_of_bounds_batch(q, i + 1));
                    }
                }
                i = i + 1;
            }
            if errors.len() > 0 {
                return Err(InterpolateError::OutOfBounds(errors));
            }
            let r = strategy.batch_interpolate_into(data, points, out);
            proof {
                if ordered::<T>() && data.valid() {
                    assert(batch_outcome_arrays(*strategy, *data, points@, r, out@));
                    lemma_batch_outcome_views(*strategy, *data, points@, q, r, out@);
                }
            }
            r
        },
    }
}

impl<T: PartialOrd, V: Values<T, N>, const N: usize> InterpDataBase<T, V, N> {
    /// The positions of in-bound points are increasing, below `n`, and are exactly the
    /// positions of the points within the grid.
    pub proof fn lemma_inbound_positions(&self, points: Seq<Seq<T>>, n: int)
        requires
            0 <= n <= points.len(),
        ensures
            forall|k: int|
                0 <= k < self.inbound_positions(points, n).len() ==> 0 <= #[trigger] self.inbound_positions(
                    points,
                    n,
                )[k] < n,
            forall|k: int, l: int|
                0 <= k < l < self.inbound_positions(points, n).len() ==> self.inbound_positions(
                    points,
                    n,
                )[k] < self.inbound_positions(points, n)[l],
            forall|j: int|
                0 <= j < n ==> (self.contains_point(#[trigger] points[j]) <==> exists|k: int|
                    0 <= k < self.inbound_positions(points, n).len() && self.inbound_positions(
                        points,
                        n,
                    )[k] == j),
        decreases n,
    {
        if n > 0 {
            self.lemma_inbound_positions(points, n - 1);
            let prev = self.inbound_positions(points, n - 1);
            let cur = self.inbound_positions(points, n);
            assert forall|j: int|
                0 <= j < n implies (self.contains_point(#[trigger] points[j]) <==> exists|k: int|
                0 <= k < cur.len() && cur[k] == j) by {
                if j < n - 1 {
                    if self.contains_point(points[j]) {
                        let k = choose|k: int| 0 <= k < prev.len() && prev[k] == j;
                        assert(cur[k] == j);
                    }
                    if exists|k: int| 0 <= k < cur.len() && cur[k] == j {
                        let k = choose|k: int| 0 <= k < cur.len() && cur[k] == j;
                        if k < prev.len() {
                            assert(prev[k] == j);
                        }
                    }
                } else {
                    if self.contains_point(points[j]) {
                        assert(cur[prev.len() as int] == j);
                    }
                }
            }
        }
    }
}

/// `Extrapolate::Fill` for a batch: every point beyond the grid gets `value`, and the
/// points within it are interpolated together in one strategy call.
fn batch_fill<
    T: PartialOrd + Copy + Add<Output = T> + Sub<Output = T> + Rem<Output = T>,
    V: Values<T, N>,
    S: Strategy<T, V, N>,
    const N: usize,
>(
    data: &InterpDataBase<T, V, N>,
    strategy: &S,
    value: T,
    points: &[[T; N]],
    out: &mut [T],
) -> (r: Result<(), InterpolateError>)
    requires
        data.shaped(),
        strategy.validation(*data) is Ok,
        old(out)@.len() == points@.len(),
    ensures
        final(out)@.len() == old(out)@.len(),
        ordered::<T>() && data.valid() ==> batch_into_outcome(
            *data,
            *strategy,
            Extrapolate::Fill(value),
            views(points@),
            r,
            old(out)@,
            final(out)@,
        ),
{
    let ghost q = views(points@);
    let n = points.len();
    let mut i: usize = 0;
    while i < out.len()
        invariant
            i <= out@.len(),
            out@.len() == n,
            n == points@.len(),
            forall|j: int| 0 <= j < i ==> #[trigger] out@[j] == value,
        decreases out@.len() - i,
    {
        out[i] = value;
        i = i + 1;
    }
    let mut idx: Vec<usize> = Vec::new();
    let mut pts: Vec<[T; N]> = Vec::new();
    let mut i: usize = 0;
    while i < n
        invariant
            data.shaped(),
            n == points@.len(),
            q == views(points@),
            i <= n,
            idx@.len() == pts@.len(),
            forall|k: int| 0 <= k < idx@.len() ==> #[trigger] idx@[k] < i,
            forall|a: int, b: int| 0 <= a < b < idx@.len() ==> idx@[a] < idx@[b],
            forall|k: int|
                0 <= k < idx@.len() ==> (#[trigger] pts@[k])@ == points@[idx@[k] as int]@,
            obeys_order::<T>() ==> idx@.len() == data.inbound_positions(q, i as int).len(),
            obeys_order::<T>() ==> forall|k: int|
                0 <= k < idx@.len() ==> #[trigger] idx@[k] as int == data.inbound_positions(
                    q,
                    i as int,
                )[k],
        decreases n - i,
    {
        let outside = out_of_bounds(data, &points[i]);
        proof {
            assert(q[i as int] == points@[i as int]@);
        }
        if !outside {
            idx.push(i);
            pts.push(points[i]);
        }
        i = i + 1;
    }
    proof {
        if obeys_order::<T>() {
            data.lemma_inbound_positions(q, n as int);
        }
    }
    if idx.len() == 0 {
        proof {
            if ordered::<T>() && data.valid() {
                assert forall|j: int| 0 <= j < n implies !data.contains_point(#[trigger] q[j]) by {
                    if data.contains_point(q[j]) {
                        let k = choose|k: int|
                            0 <= k < data.inbound_positions(q, n as int).len()
                                && data.inbound_positions(q, n as int)[k] == j;
                    }
                }
            }
        }
        return Ok(());
    }
    let mut scratch: Vec<T> = Vec::new();
    let mut k: usize = 0;
    while k < idx.len()
        invariant
            k <= idx@.len(),
            scratch@.len() == k,
        decreases idx@.len() - k,
    {
        scratch.push(value);
        k = k + 1;
    }
    let r = strategy.batch_interpolate_into(data, pts.as_slice(), scratch.as_mut_slice());
    let ghost inb = data.inbound_positions(q, n as int);
    let ghost sub = inb.map_values(|j: int| q[j]);
    proof {
        if ordered::<T>() && data.valid() {
            assert(batch_outcome_arrays(*strategy, *data, pts@, r, scratch@));
            assert forall|j: int| 0 <= j < sub.len() implies #[trigger] sub[j] == pts@[j]@ by {
                assert(idx@[j] as int == inb[j]);
            }
            lemma_batch_outcome_views(*strategy, *data, pts@, sub, r, scratch@);
        }
    }
    if r.is_err() {
        return r;
    }
    let mut k: usize = 0;
    while k < idx.len()
        invariant
            k <= idx@.len(),
            idx@.len() == pts@.len(),
            scratch@.len() == idx@.len(),
            out@.len() == n,
            forall|a: int| 0 <= a < idx@.len() ==> #[trigger] idx@[a] < n,
            forall|a: int, b: int| 0 <= a < b < idx@.len() ==> idx@[a] < idx@[b],
            forall|a: int| 0 <= a < k ==> out@[#[trigger] idx@[a] as int] == scratch@[a],
            forall|j: int|
                0 <= j < n && (forall|a: int| 0 <= a < k ==> #[trigger] idx@[a] != j) ==> out@[j]
                    == value,
        decreases idx@.len() - k,
    {
        out[idx[k]] = scratch[k];
        k = k + 1;
    }
    proof {
        if ordered::<T>() && data.valid() {
            assert forall|j: int| 0 <= j < n implies if data.contains_point(#[trigger] q[j]) {
                strategy.interpolation(*data, q[j]) == Ok::<T, InterpolateError>(out@[j])
            } else {
                out@[j] == value
            } by {
                if data.contains_point(q[j]) {
                    let a = choose|a: int| 0 <= a < inb.len() && inb[a] == j;
                    assert(idx@[a] as int == inb[a]);
                    assert(out@[idx@[a] as int] == scratch@[a]);
                    assert(pts@[a]@ == points@[j]@);
                } else {
                    assert forall|a: int| 0 <= a < idx@.len() implies #[trigger] idx@[a] != j by {
                        assert(idx@[a] as int == inb[a]);
                    }
                }
            }
        }
    }
    Ok(())
}

} // verus!
