//! Properties of the library that span several functions or every input.

use vstd::prelude::*;
use vstd::arithmetic::div_mod::{lemma_fundamental_div_mod, lemma_fundamental_div_mod_converse, lemma_mod_bound};
use vstd::std_specs::ops::{AddSpec, RemSpec, SubSpec};
use core::ops::{Add, Rem, Sub};
use crate::data::{InterpDataBase, InterpData1DBase, InterpData2DBase, InterpData3DBase, Values};
use crate::error::{InterpolateError, OutOfBoundsAt};
use crate::extrapolate::{Extrapolate, batch_into_outcome, interpolate_outcome, views};
use crate::interp::{batch_vec_outcome, construction_outcome, validation_outcome};
use crate::strategy::Strategy;
use crate::data_nd::InterpDataNDBase;
use crate::uom::{
    BaseUnit, UomInterp0D, UomInterp1DBase, UomInterp2DBase, UomInterp3DBase, base_points1, base_points2,
    base_points3, converted_vec, map_base,
};
use crate::interp_nd::{
    StrategyND, batch_nd_outcome, each_outcome, construction_nd, interpolate_nd_outcome, nearest_positions, step_positions,
    validation_nd, value_at, uniform_step_positions, flat_index,
};
use crate::order::{
    ordered, le, lt, in_range, wrap_defined, wrap_spec, clamp_spec, strictly_increasing, sorted_strict, floor_index,
    ceil_index, bracket_index, is_floor, is_ceil, lemma_sorted_from_adjacent, lemma_floor_unique,
    lemma_ceil_unique,
};
use crate::strategy::{
    Integer, Nearest, Step, StepDirection, StepLower, StepUpper, nearest_index, step_index, step_value_1d, step_value_2d, step_value_3d,
};

verus! {

/// Stepping from a grid coordinate in either direction lands on that coordinate.
pub proof fn lemma_step_index_at_grid_point<T: PartialOrd>(
    direction: StepDirection,
    s: Seq<T>,
    i: int,
)
    requires
        ordered::<T>(),
        strictly_increasing(s),
        0 <= i < s.len(),
    ensures
        step_index(direction, s, s[i]) == i,
{
    lemma_sorted_from_adjacent(s);
    assert(le(s[i], s[i]));
    match direction {
        StepDirection::Lower => {
            assert(le(s[0], s[i])) by {
                if i > 0 {
                    assert(lt(s[0], s[i]));
                }
            }
            assert(is_floor(s, s[i], i)) by {
                if i + 1 < s.len() {
                    assert(lt(s[i], s[i + 1]));
                }
            }
            let c = choose|j: int| is_floor(s, s[i], j);
            lemma_floor_unique(s, s[i], i, c);
        },
        StepDirection::Upper => {
            assert(le(s[i], s[s.len() - 1])) by {
                if i < s.len() - 1 {
                    assert(lt(s[i], s[s.len() - 1]));
                }
            }
            assert(is_ceil(s, s[i], i)) by {
                if i > 0 {
                    assert(lt(s[i - 1], s[i]));
                }
            }
            let c = choose|j: int| is_ceil(s, s[i], j);
            lemma_ceil_unique(s, s[i], i, c);
        },
    }
}

/// The bracketing interval of a coordinate within the axis's extent contains it: its
/// lower end is at most the coordinate, which is at most its upper end.
pub proof fn lemma_bracket_contains<T: PartialOrd>(s: Seq<T>, p: T)
    requires
        ordered::<T>(),
        strictly_increasing(s),
        s.len() >= 2,
        in_range(p, s[0], s[s.len() - 1]),
    ensures
        0 <= bracket_index(s, p) < s.len() - 1,
        le(s[bracket_index(s, p)], p),
        le(p, s[bracket_index(s, p) + 1]),
{
    lemma_sorted_from_adjacent(s);
    let c = choose|j: int| is_floor(s, p, j);
    assert(exists|j: int| is_floor(s, p, j)) by {
        lemma_floor_exists(s, p, s.len() - 1);
    }
    let f = floor_index(s, p);
    assert(is_floor(s, p, f));
    if f < s.len() - 1 {
        assert(lt(p, s[f + 1]));
    } else {
        assert(le(p, s[s.len() - 1]));
        let l = s.len() - 2;
        assert(lt(s[l], s[l + 1]));
        assert(le(s[l], s[l + 1]));
        assert(le(s[l], p));
    }
}

/// Some index of a sorted sequence is the floor of a coordinate at or above its first
/// element; searched downward from `k`.
proof fn lemma_floor_exists<T: PartialOrd>(s: Seq<T>, p: T, k: int)
    requires
        ordered::<T>(),
        sorted_strict(s),
        0 <= k < s.len(),
        le(s[0], p),
        k + 1 < s.len() ==> lt(p, s[k + 1]),
    ensures
        exists|j: int| is_floor(s, p, j),
    decreases k,
{
    if le(s[k], p) {
        assert(is_floor(s, p, k));
    } else {
        assert(lt(p, s[k]));
        lemma_floor_exists(s, p, k - 1);
    }
}

/// Stepping from a grid point of valid 1-D data returns the value stored there.
pub proof fn lemma_step_1d_at_grid_point<T: PartialOrd>(
    data: InterpData1DBase<T>,
    d0: StepDirection,
    i: int,
)
    requires
        ordered::<T>(),
        data.valid(),
        0 <= i < data.axis(0).len(),
    ensures
        step_value_1d(data, d0, seq![data.axis(0)[i]]) == data.values@[i],
{
    assert(data.dim_error(0) is None);
    lemma_step_index_at_grid_point(d0, data.axis(0), i);
}

/// Stepping from a grid point of valid 2-D data returns the value stored there.
pub proof fn lemma_step_2d_at_grid_point<T: PartialOrd>(
    data: InterpData2DBase<T>,
    d0: StepDirection,
    d1: StepDirection,
    i: int,
    j: int,
)
    requires
        ordered::<T>(),
        data.valid(),
        0 <= i < data.axis(0).len(),
        0 <= j < data.axis(1).len(),
    ensures
        step_value_2d(data, d0, d1, seq![data.axis(0)[i], data.axis(1)[j]]) == data.values@[i]@[j],
{
    assert(data.dim_error(0) is None);
    assert(data.dim_error(1) is None);
    lemma_step_index_at_grid_point(d0, data.axis(0), i);
    lemma_step_index_at_grid_point(d1, data.axis(1), j);
}

/// Stepping from a grid point of valid 3-D data returns the value stored there.
pub proof fn lemma_step_3d_at_grid_point<T: PartialOrd>(
    data: InterpData3DBase<T>,
    d0: StepDirection,
    d1: StepDirection,
    d2: StepDirection,
    i: int,
    j: int,
    k: int,
)
    requires
        ordered::<T>(),
        data.valid(),
        0 <= i < data.axis(0).len(),
        0 <= j < data.axis(1).len(),
        0 <= k < data.axis(2).len(),
    ensures
        step_value_3d(data, d0, d1, d2, seq![data.axis(0)[i], data.axis(1)[j], data.axis(2)[k]])
            == data.values@[i]@[j]@[k],
{
    assert(data.dim_error(0) is None);
    assert(data.dim_error(1) is None);
    assert(data.dim_error(2) is None);
    lemma_step_index_at_grid_point(d0, data.axis(0), i);
    lemma_step_index_at_grid_point(d1, data.axis(1), j);
    lemma_step_index_at_grid_point(d2, data.axis(2), k);
}

/// The nearest grid coordinate to a grid coordinate is itself.
pub proof fn lemma_nearest_at_grid_point<T: Integer>(s: Seq<T>, i: int)
    requires
        strictly_increasing(s),
        s.len() >= 2,
        0 <= i < s.len(),
    ensures
        nearest_index(s, s[i]) == i,
{
    T::lemma_integer(s[i], s[i]);
    lemma_step_index_at_grid_point(StepDirection::Lower, s, i);
    lemma_sorted_from_adjacent(s);
    if i + 1 < s.len() {
        assert(lt(s[i], s[i + 1]));
        T::lemma_integer(s[i], s[i + 1]);
    } else {
        assert(lt(s[i - 1], s[i]));
        T::lemma_integer(s[i - 1], s[i]);
    }
}

/// Clamping leaves a coordinate within the range unchanged, and puts any coordinate
/// within a nonempty range.
pub proof fn lemma_clamp<T: PartialOrd>(x: T, lo: T, hi: T)
    requires
        ordered::<T>(),
        le(lo, hi),
    ensures
        in_range(clamp_spec(x, lo, hi), lo, hi),
        in_range(x, lo, hi) ==> clamp_spec(x, lo, hi) == x,
{
    assert(le(lo, lo) && le(hi, hi));
    if lt(x, lo) {
    } else if crate::order::gt(x, hi) {
        assert(lt(hi, x));
    } else {
        assert(le(lo, x));
        assert(!lt(hi, x));
        assert(le(x, hi));
    }
}

/// Wrapping an `i64` coordinate around `[lo, hi)` gives `lo` plus the Euclidean
/// remainder of its offset from `lo`, which lies in `[lo, hi)`.
pub proof fn lemma_wrap_i64(x: i64, lo: i64, hi: i64)
    requires
        lo < hi,
        wrap_defined(x, lo, hi),
    ensures
        wrap_spec(x, lo, hi) == lo + (x - lo) % (hi - lo),
        lo <= wrap_spec(x, lo, hi) < hi,
{
    let m: int = hi - lo;
    let d: int = x - lo;
    assert(hi.sub_spec(lo) == m);
    assert(x.sub_spec(lo) == d);
    lemma_mod_bound(d, m);
    if d < 0 {
        let q = (-d) / m;
        let t = (-d) % m;
        lemma_mod_bound(-d, m);
        lemma_fundamental_div_mod(-d, m);
        assert(-d == m * q + t);
        if t == 0 {
            assert(d == (-q) * m + 0) by (nonlinear_arith)
                requires
                    -d == m * q + t,
                    t == 0,
            ;
            lemma_fundamental_div_mod_converse(d, m, -q, 0);
        } else {
            assert(d == (-q - 1) * m + (m - t)) by (nonlinear_arith)
                requires
                    -d == m * q + t,
            ;
            lemma_fundamental_div_mod_converse(d, m, -q - 1, m - t);
        }
    }
}

/// Wrapping leaves an `i64` coordinate within `[lo, hi)` unchanged.
pub proof fn lemma_wrap_i64_identity(x: i64, lo: i64, hi: i64)
    requires
        lo <= x < hi,
        wrap_defined(x, lo, hi),
    ensures
        wrap_spec(x, lo, hi) == x,
{
    lemma_wrap_i64(x, lo, hi);
    lemma_fundamental_div_mod_converse(x - lo, hi - lo, 0, x - lo);
}

/// Wrapping an `i64` coordinate is periodic: shifting it by the interval's length
/// wraps to the same coordinate.
pub proof fn lemma_wrap_i64_periodic(x: i64, y: i64, lo: i64, hi: i64)
    requires
        lo < hi,
        y == x + (hi - lo),
        wrap_defined(x, lo, hi),
        wrap_defined(y, lo, hi),
    ensures
        wrap_spec(y, lo, hi) == wrap_spec(x, lo, hi),
{
    lemma_wrap_i64(x, lo, hi);
    lemma_wrap_i64(y, lo, hi);
    let m: int = hi - lo;
    let d: int = x - lo;
    lemma_fundamental_div_mod(d, m);
    lemma_mod_bound(d, m);
    let q = d / m;
    assert(d + m == (q + 1) * m + d % m) by (nonlinear_arith)
        requires
            d == m * q + d % m,
    ;
    lemma_fundamental_div_mod_converse(d + m, m, q + 1, d % m);
}

/// The first coordinate of an axis of valid data is below its last.
proof fn lemma_axis_extent<T: PartialOrd, V: Values<T, N>, const N: usize>(
    data: InterpDataBase<T, V, N>,
    d: int,
)
    requires
        ordered::<T>(),
        data.valid(),
        0 <= d < N,
    ensures
        data.axis(d).len() >= 2,
        lt(data.lo(d), data.hi(d)),
        le(data.lo(d), data.hi(d)),
{
    assert(data.dim_error(d) is None);
    lemma_sorted_from_adjacent(data.axis(d));
    assert(lt(data.axis(d)[0], data.axis(d)[data.axis(d).len() - 1]));
}

/// Wrapping a point around valid `i64` data lands it within the grid.
pub proof fn lemma_wrapped_inside_i64<V: Values<i64, N>, const N: usize>(
    data: InterpDataBase<i64, V, N>,
    point: Seq<i64>,
)
    requires
        data.valid(),
        point.len() == N,
        forall|d: int| 0 <= d < N ==> #[trigger] wrap_defined(point[d], data.lo(d), data.hi(d)),
    ensures
        data.contains_point(data.wrapped(point)),
{
    crate::order::lemma_ordered_i64();
    assert forall|d: int| 0 <= d < N implies #[trigger] data.in_axis(d, data.wrapped(point)[d]) by {
        lemma_axis_extent(data, d);
        assert(wrap_defined(point[d], data.lo(d), data.hi(d)));
        lemma_wrap_i64(point[d], data.lo(d), data.hi(d));
    }
}

/// With the `Wrap` setting, interpolating 1-D `i64` data is periodic: a coordinate and
/// the same coordinate shifted by the grid's extent give the same result, except at
/// the grid's two edges, which lie inside the grid and are not wrapped.
pub proof fn lemma_wrap_setting_periodic_1d<S: Strategy<i64, Vec<i64>, 1>>(
    data: InterpData1DBase<i64>,
    strategy: S,
    x: i64,
    y: i64,
    r: Result<i64, InterpolateError>,
    q: Result<i64, InterpolateError>,
)
    requires
        data.valid(),
        y == x + (data.hi(0) - data.lo(0)),
        x != data.lo(0),
        x != data.hi(0),
        wrap_defined(x, data.lo(0), data.hi(0)),
        wrap_defined(y, data.lo(0), data.hi(0)),
        interpolate_outcome(data, strategy, Extrapolate::Wrap, seq![x], r),
        interpolate_outcome(data, strategy, Extrapolate::Wrap, seq![y], q),
    ensures
        r == q,
{
    crate::order::lemma_ordered_i64();
    lemma_axis_extent(data, 0);
    let lo = data.lo(0);
    let hi = data.hi(0);
    lemma_wrap_i64_periodic(x, y, lo, hi);
    lemma_wrap_i64(x, lo, hi);
    let wx = wrap_spec(x, lo, hi);
    assert(data.wrapped(seq![x]) =~= seq![wx]);
    assert(data.wrapped(seq![y]) =~= seq![wx]);
    let px = if data.contains_point(seq![x]) { seq![x] } else { data.wrapped(seq![x]) };
    let py = if data.contains_point(seq![y]) { seq![y] } else { data.wrapped(seq![y]) };
    assert(r == strategy.interpolation(data, px));
    assert(q == strategy.interpolation(data, py));
    assert(seq![x][0] == x && seq![y][0] == y);
    if data.contains_point(seq![x]) {
        assert(data.in_axis(0, seq![x][0]));
        assert(lo < x < hi);
        lemma_wrap_i64_identity(x, lo, hi);
        assert(!data.in_axis(0, y));
        assert(!data.contains_point(seq![y]));
    } else if data.contains_point(seq![y]) {
        assert(data.in_axis(0, seq![y][0]));
        assert(lo <= y < hi);
        lemma_wrap_i64_identity(y, lo, hi);
    }
    assert(px =~= py);
}

/// Clamping a point within valid data leaves it unchanged.
pub proof fn lemma_clamped_inside<T: PartialOrd, V: Values<T, N>, const N: usize>(
    data: InterpDataBase<T, V, N>,
    point: Seq<T>,
)
    requires
        ordered::<T>(),
        data.valid(),
        point.len() == N,
        data.contains_point(point),
    ensures
        data.clamped(point) == point,
{
    assert forall|d: int| 0 <= d < N implies data.clamped(point)[d] == point[d] by {
        lemma_axis_extent(data, d);
        assert(data.in_axis(d, point[d]));
        lemma_clamp(point[d], data.lo(d), data.hi(d));
    }
    assert(data.clamped(point) =~= point);
}

/// A grid point of valid data, given by one position per axis, lies within the grid.
pub proof fn lemma_grid_point_inside<T: PartialOrd, V: Values<T, N>, const N: usize>(
    data: InterpDataBase<T, V, N>,
    point: Seq<T>,
    at: Seq<int>,
)
    requires
        ordered::<T>(),
        data.valid(),
        point.len() == N,
        at.len() == N,
        forall|d: int| 0 <= d < N ==> 0 <= #[trigger] at[d] < data.axis(d).len() && point[d] == data.axis(d)[at[d]],
    ensures
        data.contains_point(point),
{
    assert forall|d: int| 0 <= d < N implies #[trigger] data.in_axis(d, point[d]) by {
        let s = data.axis(d);
        let i = at[d];
        lemma_axis_extent(data, d);
        assert(data.dim_error(d) is None);
        lemma_sorted_from_adjacent(s);
        assert(le(s[i], s[i]));
        if i > 0 {
            assert(lt(s[0], s[i]));
        }
        if i < s.len() - 1 {
            assert(lt(s[i], s[s.len() - 1]));
        }
    }
}

/// Within the grid the extrapolation setting plays no part: interpolating a point
/// inside the grid gives the strategy's value there.
pub proof fn lemma_inside_uses_strategy<
    T: PartialOrd + Add<Output = T> + Sub<Output = T> + Rem<Output = T>,
    V: Values<T, N>,
    S: Strategy<T, V, N>,
    const N: usize,
>(
    data: InterpDataBase<T, V, N>,
    strategy: S,
    extrapolate: Extrapolate<T>,
    point: Seq<T>,
    r: Result<T, InterpolateError>,
)
    requires
        data.contains_point(point),
        interpolate_outcome(data, strategy, extrapolate, point, r),
    ensures
        r == strategy.interpolation(data, point),
{
}

/// Interpolating valid 1-D data with a step strategy at a grid point returns the value
/// stored there, whatever the extrapolation setting.
pub proof fn lemma_step_1d_interpolates_grid_values<
    T: PartialOrd + Copy + Add<Output = T> + Sub<Output = T> + Rem<Output = T>,
>(
    data: InterpData1DBase<T>,
    step: Step,
    extrapolate: Extrapolate<T>,
    i: int,
    r: Result<T, InterpolateError>,
)
    requires
        ordered::<T>(),
        data.valid(),
        0 <= i < data.axis(0).len(),
        interpolate_outcome(data, step, extrapolate, seq![data.axis(0)[i]], r),
    ensures
        r == Ok::<T, InterpolateError>(data.values@[i]),
{
    lemma_grid_point_inside(data, seq![data.axis(0)[i]], seq![i]);
    lemma_step_1d_at_grid_point(data, step.direction(0), i);
}

/// Interpolating valid 2-D data with a step strategy at a grid point returns the value
/// stored there, whatever the extrapolation setting.
pub proof fn lemma_step_2d_interpolates_grid_values<
    T: PartialOrd + Copy + Add<Output = T> + Sub<Output = T> + Rem<Output = T>,
>(
    data: InterpData2DBase<T>,
    step: Step,
    extrapolate: Extrapolate<T>,
    i: int,
    j: int,
    r: Result<T, InterpolateError>,
)
    requires
        ordered::<T>(),
        data.valid(),
        0 <= i < data.axis(0).len(),
        0 <= j < data.axis(1).len(),
        interpolate_outcome(data, step, extrapolate, seq![data.axis(0)[i], data.axis(1)[j]], r),
    ensures
        r == Ok::<T, InterpolateError>(data.values@[i]@[j]),
{
    lemma_grid_point_inside(data, seq![data.axis(0)[i], data.axis(1)[j]], seq![i, j]);
    lemma_step_2d_at_grid_point(data, step.direction(0), step.direction(1), i, j);
}

/// Interpolating valid 3-D data with a step strategy at a grid point returns the value
/// stored there, whatever the extrapolation setting.
pub proof fn lemma_step_3d_interpolates_grid_values<
    T: PartialOrd + Copy + Add<Output = T> + Sub<Output = T> + Rem<Output = T>,
>(
    data: InterpData3DBase<T>,
    step: Step,
    extrapolate: Extrapolate<T>,
    i: int,
    j: int,
    k: int,
    r: Result<T, InterpolateError>,
)
    requires
        ordered::<T>(),
        data.valid(),
        0 <= i < data.axis(0).len(),
        0 <= j < data.axis(1).len(),
        0 <= k < data.axis(2).len(),
        interpolate_outcome(data, step, extrapolate, seq![data.axis(0)[i], data.axis(1)[j], data.axis(2)[k]], r),
    ensures
        r == Ok::<T, InterpolateError>(data.values@[i]@[j]@[k]),
{
    lemma_grid_point_inside(data, seq![data.axis(0)[i], data.axis(1)[j], data.axis(2)[k]], seq![i, j, k]);
    lemma_step_3d_at_grid_point(data, step.direction(0), step.direction(1), step.direction(2), i, j, k);
}

/// Interpolating valid 1-D integer data with nearest-neighbour interpolation at a grid
/// point returns the value stored there, whatever the extrapolation setting.
pub proof fn lemma_nearest_1d_interpolates_grid_values<T: Integer + Add<Output = T> + Sub<Output = T> + Rem<Output = T>>(
    data: InterpData1DBase<T>,
    extrapolate: Extrapolate<T>,
    i: int,
    r: Result<T, InterpolateError>,
)
    requires
        data.valid(),
        0 <= i < data.axis(0).len(),
        interpolate_outcome(data, Nearest, extrapolate, seq![data.axis(0)[i]], r),
    ensures
        r == Ok::<T, InterpolateError>(data.values@[i]),
{
    T::lemma_integer(data.axis(0)[i], data.axis(0)[i]);
    lemma_axis_extent(data, 0);
    lemma_grid_point_inside(data, seq![data.axis(0)[i]], seq![i]);
    assert(data.dim_error(0) is None);
    lemma_nearest_at_grid_point(data.axis(0), i);
}

/// Interpolating valid 2-D integer data with nearest-neighbour interpolation at a grid
/// point returns the value stored there, whatever the extrapolation setting.
pub proof fn lemma_nearest_2d_interpolates_grid_values<T: Integer + Add<Output = T> + Sub<Output = T> + Rem<Output = T>>(
    data: InterpData2DBase<T>,
    extrapolate: Extrapolate<T>,
    i: int,
    j: int,
    r: Result<T, InterpolateError>,
)
    requires
        data.valid(),
        0 <= i < data.axis(0).len(),
        0 <= j < data.axis(1).len(),
        interpolate_outcome(data, Nearest, extrapolate, seq![data.axis(0)[i], data.axis(1)[j]], r),
    ensures
        r == Ok::<T, InterpolateError>(data.values@[i]@[j]),
{
    T::lemma_integer(data.axis(0)[i], data.axis(0)[i]);
    lemma_axis_extent(data, 0);
    lemma_axis_extent(data, 1);
    lemma_grid_point_inside(data, seq![data.axis(0)[i], data.axis(1)[j]], seq![i, j]);
    assert(data.dim_error(0) is None);
    assert(data.dim_error(1) is None);
    lemma_nearest_at_grid_point(data.axis(0), i);
    lemma_nearest_at_grid_point(data.axis(1), j);
}

/// Interpolating valid 3-D integer data with nearest-neighbour interpolation at a grid
/// point returns the value stored there, whatever the extrapolation setting.
pub proof fn lemma_nearest_3d_interpolates_grid_values<T: Integer + Add<Output = T> + Sub<Output = T> + Rem<Output = T>>(
    data: InterpData3DBase<T>,
    extrapolate: Extrapolate<T>,
    i: int,
    j: int,
    k: int,
    r: Result<T, InterpolateError>,
)
    requires
        data.valid(),
        0 <= i < data.axis(0).len(),
        0 <= j < data.axis(1).len(),
        0 <= k < data.axis(2).len(),
        interpolate_outcome(data, Nearest, extrapolate, seq![data.axis(0)[i], data.axis(1)[j], data.axis(2)[k]], r),
    ensures
        r == Ok::<T, InterpolateError>(data.values@[i]@[j]@[k]),
{
    T::lemma_integer(data.axis(0)[i], data.axis(0)[i]);
    lemma_axis_extent(data, 0);
    lemma_axis_extent(data, 1);
    lemma_axis_extent(data, 2);
    lemma_grid_point_inside(data, seq![data.axis(0)[i], data.axis(1)[j], data.axis(2)[k]], seq![i, j, k]);
    assert(data.dim_error(0) is None);
    assert(data.dim_error(1) is None);
    assert(data.dim_error(2) is None);
    lemma_nearest_at_grid_point(data.axis(0), i);
    lemma_nearest_at_grid_point(data.axis(1), j);
    lemma_nearest_at_grid_point(data.axis(2), k);
}

/// No out-of-bounds entry in a batch means none for any of its points.
proof fn lemma_batch_inside<T: PartialOrd, V: Values<T, N>, const N: usize>(
    data: InterpDataBase<T, V, N>,
    points: Seq<Seq<T>>,
    n: int,
)
    requires
        0 <= n <= points.len(),
        data.out_of_bounds_batch(points, n).len() == 0,
    ensures
        forall|i: int| 0 <= i < n ==> data.contains_point(#[trigger] points[i]),
    decreases n,
{
    if n > 0 {
        lemma_batch_inside(data, points, n - 1);
        data.lemma_out_of_bounds_upto(points[n - 1], (n - 1) as usize, N as int);
        assert forall|i: int| 0 <= i < n implies data.contains_point(#[trigger] points[i]) by {
            if i == n - 1 {
                assert(forall|k: int| 0 <= k < N ==> #[trigger] data.in_axis(k, points[i][k]));
            }
        }
    }
}

/// With the `Fill` setting, a point beyond the grid gives the fill value.
pub proof fn lemma_fill_outside<
    T: PartialOrd + Add<Output = T> + Sub<Output = T> + Rem<Output = T>,
    V: Values<T, N>,
    S: Strategy<T, V, N>,
    const N: usize,
>(
    data: InterpDataBase<T, V, N>,
    strategy: S,
    value: T,
    point: Seq<T>,
    r: Result<T, InterpolateError>,
)
    requires
        !data.contains_point(point),
        interpolate_outcome(data, strategy, Extrapolate::Fill(value), point, r),
    ensures
        r == Ok::<T, InterpolateError>(value),
{
}

/// The entries reported below axis `d` for a point: each carries `index`, names an axis
/// below `d` on which the point leaves the grid, the axes increase from entry to entry,
/// and every such axis is named.
proof fn lemma_out_of_bounds_entries<T: PartialOrd, V: Values<T, N>, const N: usize>(
    data: InterpDataBase<T, V, N>,
    point: Seq<T>,
    index: usize,
    d: int,
)
    requires
        0 <= d <= N,
    ensures
        forall|k: int|
            0 <= k < data.out_of_bounds_upto(point, index, d).len() ==> {
                let e = #[trigger] data.out_of_bounds_upto(point, index, d)[k];
                &&& e.index == index
                &&& e.dim < d
                &&& !data.in_axis(e.dim as int, point[e.dim as int])
            },
        forall|k: int, m: int|
            0 <= k < m < data.out_of_bounds_upto(point, index, d).len() ==> (#[trigger] data.out_of_bounds_upto(
                point,
                index,
                d,
            )[k]).dim < (#[trigger] data.out_of_bounds_upto(point, index, d)[m]).dim,
        forall|a: int|
            0 <= a < d && !(#[trigger] data.in_axis(a, point[a])) ==> exists|k: int|
                0 <= k < data.out_of_bounds_upto(point, index, d).len() && (#[trigger] data.out_of_bounds_upto(
                    point,
                    index,
                    d,
                )[k]).dim == a,
    decreases d,
{
    if d > 0 {
        lemma_out_of_bounds_entries(data, point, index, d - 1);
        let prev = data.out_of_bounds_upto(point, index, d - 1);
        let cur = data.out_of_bounds_upto(point, index, d);
        if !data.in_axis(d - 1, point[d - 1]) {
            assert(cur == prev.push(OutOfBoundsAt { index: index, dim: (d - 1) as usize }));
            assert forall|a: int| 0 <= a < d && !(#[trigger] data.in_axis(a, point[a])) implies exists|k: int|
                0 <= k < cur.len() && (#[trigger] cur[k]).dim == a by {
                if a == d - 1 {
                    assert(cur[prev.len() as int].dim == a);
                } else {
                    let k = choose|k: int| 0 <= k < prev.len() && (#[trigger] prev[k]).dim == a;
                    assert(cur[k] == prev[k]);
                }
            }
        } else {
            assert forall|a: int| 0 <= a < d && !(#[trigger] data.in_axis(a, point[a])) implies exists|k: int|
                0 <= k < cur.len() && (#[trigger] cur[k]).dim == a by {
                assert(a != d - 1);
            }
        }
    }
}

/// With the `Error` setting, a point beyond the grid is refused with one entry per axis
/// on which it leaves the grid, in axis order, each with index 0; the list is never
/// empty.
pub proof fn lemma_error_lists_outside_axes<
    T: PartialOrd + Add<Output = T> + Sub<Output = T> + Rem<Output = T>,
    V: Values<T, N>,
    S: Strategy<T, V, N>,
    const N: usize,
>(
    data: InterpDataBase<T, V, N>,
    strategy: S,
    point: Seq<T>,
    r: Result<T, InterpolateError>,
)
    requires
        !data.contains_point(point),
        interpolate_outcome(data, strategy, Extrapolate::Error, point, r),
    ensures
        r matches Err(InterpolateError::OutOfBounds(v)) && {
            &&& v@.len() > 0
            &&& forall|k: int|
                0 <= k < v@.len() ==> (#[trigger] v@[k]).index == 0 && v@[k].dim < N && !data.in_axis(
                    v@[k].dim as int,
                    point[v@[k].dim as int],
                )
            &&& forall|k: int, m: int| 0 <= k < m < v@.len() ==> (#[trigger] v@[k]).dim < (#[trigger] v@[m]).dim
            &&& forall|a: int|
                0 <= a < N && !(#[trigger] data.in_axis(a, point[a])) ==> exists|k: int|
                    0 <= k < v@.len() && (#[trigger] v@[k]).dim == a
        },
{
    data.lemma_out_of_bounds_upto(point, 0, N as int);
    lemma_out_of_bounds_entries(data, point, 0, N as int);
}

/// Clamping any point of `N` coordinates into valid data lands it within the grid, so
/// with the `Clamp` setting the strategy is only ever asked about points inside.
pub proof fn lemma_clamped_point_inside<T: PartialOrd, V: Values<T, N>, const N: usize>(
    data: InterpDataBase<T, V, N>,
    point: Seq<T>,
)
    requires
        ordered::<T>(),
        data.valid(),
        point.len() == N,
    ensures
        data.contains_point(data.clamped(point)),
{
    assert forall|d: int| 0 <= d < N implies #[trigger] data.in_axis(d, data.clamped(point)[d]) by {
        lemma_axis_extent(data, d);
        lemma_clamp(point[d], data.lo(d), data.hi(d));
    }
}

/// A successful batch call gives every point the value that interpolating it alone
/// gives, whatever the extrapolation setting.
pub proof fn lemma_batch_matches_single<
    T: PartialOrd + Add<Output = T> + Sub<Output = T> + Rem<Output = T>,
    V: Values<T, N>,
    S: Strategy<T, V, N>,
    const N: usize,
>(
    data: InterpDataBase<T, V, N>,
    strategy: S,
    extrapolate: Extrapolate<T>,
    points: Seq<Seq<T>>,
    before: Seq<T>,
    after: Seq<T>,
)
    requires
        ordered::<T>(),
        data.valid(),
        forall|i: int| 0 <= i < points.len() ==> (#[trigger] points[i]).len() == N,
        batch_into_outcome(
            data,
            strategy,
            extrapolate,
            points,
            Ok::<(), InterpolateError>(()),
            before,
            after,
        ),
    ensures
        forall|i: int|
            0 <= i < points.len() ==> interpolate_outcome(
                data,
                strategy,
                extrapolate,
                #[trigger] points[i],
                Ok::<T, InterpolateError>(after[i]),
            ),
{
    match extrapolate {
        Extrapolate::Clamp => {
            assert forall|i: int| 0 <= i < points.len() implies interpolate_outcome(
                data,
                strategy,
                extrapolate,
                #[trigger] points[i],
                Ok::<T, InterpolateError>(after[i]),
            ) by {
                let cq = points.map_values(|p: Seq<T>| data.clamped(p));
                assert(cq[i] == data.clamped(points[i]));
                assert(strategy.interpolation(data, cq[i]) == Ok::<T, InterpolateError>(after[i]));
                if data.contains_point(points[i]) {
                    lemma_clamped_inside(data, points[i]);
                }
            }
        },
        Extrapolate::Wrap => {
            assert forall|i: int| 0 <= i < points.len() implies interpolate_outcome(
                data,
                strategy,
                extrapolate,
                #[trigger] points[i],
                Ok::<T, InterpolateError>(after[i]),
            ) by {
                let wq = points.map_values(|p: Seq<T>| data.wrapped_if_outside(p));
                assert(wq[i] == data.wrapped_if_outside(points[i]));
                assert(strategy.interpolation(data, wq[i]) == Ok::<T, InterpolateError>(after[i]));
            }
        },
        Extrapolate::Error => {
            let errs = data.out_of_bounds_batch(points, points.len() as int);
            if errs.len() == 0 {
                lemma_batch_inside(data, points, points.len() as int);
            }
            assert forall|i: int| 0 <= i < points.len() implies interpolate_outcome(
                data,
                strategy,
                extrapolate,
                #[trigger] points[i],
                Ok::<T, InterpolateError>(after[i]),
            ) by {
                assert(data.contains_point(points[i]));
                assert(strategy.interpolation(data, points[i]) == Ok::<T, InterpolateError>(after[i]));
            }
        },
        Extrapolate::Fill(v) => {
            assert forall|i: int| 0 <= i < points.len() implies interpolate_outcome(
                data,
                strategy,
                extrapolate,
                #[trigger] points[i],
                Ok::<T, InterpolateError>(after[i]),
            ) by {
                if data.contains_point(points[i]) {
                    assert(strategy.interpolation(data, points[i]) == Ok::<T, InterpolateError>(after[i]));
                } else {
                    assert(after[i] == v);
                }
            }
        },
        Extrapolate::Enable => {
            assert forall|i: int| 0 <= i < points.len() implies interpolate_outcome(
                data,
                strategy,
                extrapolate,
                #[trigger] points[i],
                Ok::<T, InterpolateError>(after[i]),
            ) by {
                assert(strategy.interpolation(data, points[i]) == Ok::<T, InterpolateError>(after[i]));
            }
        },
    }
}

/// An interpolator that construction accepts passes validation: the data, the
/// initialized strategy and the extrapolation setting that `new` assembles validate.
pub proof fn lemma_constructed_validates<T: PartialOrd, V: Values<T, N>, S: Strategy<T, V, N>, const N: usize>(
    data: InterpDataBase<T, V, N>,
    strategy: S,
    extrapolate: Extrapolate<T>,
)
    requires
        construction_outcome(data, strategy, extrapolate) is Ok,
    ensures
        validation_outcome(data, strategy.initialized(data).0, extrapolate) is Ok,
{
    strategy.lemma_initialized(data);
}

/// The first coordinate of an axis of valid N-D data is below its last.
proof fn lemma_nd_axis_extent<T: PartialOrd>(data: InterpDataNDBase<T>, d: int)
    requires
        ordered::<T>(),
        data.valid(),
        0 <= d < data.dims(),
    ensures
        data.coords(d).len() >= 2,
        lt(data.lo(d), data.hi(d)),
        le(data.lo(d), data.hi(d)),
{
    let s = data.coords(d);
    assert(strictly_increasing(s));
    lemma_sorted_from_adjacent(s);
    assert(lt(s[0], s[s.len() - 1]));
}

/// Clamping any point with one coordinate per axis into valid N-D data lands it within
/// the grid, and leaves a point already within the grid unchanged.
pub proof fn lemma_nd_clamped_point_inside<T: PartialOrd>(data: InterpDataNDBase<T>, point: Seq<T>)
    requires
        ordered::<T>(),
        data.valid(),
        point.len() == data.dims(),
    ensures
        data.contains_point(data.clamped(point)),
        data.contains_point(point) ==> data.clamped(point) == point,
{
    assert forall|d: int| 0 <= d < data.dims() implies #[trigger] data.in_axis(d, data.clamped(point)[d]) by {
        lemma_nd_axis_extent(data, d);
        lemma_clamp(point[d], data.lo(d), data.hi(d));
    }
    if data.contains_point(point) {
        assert forall|d: int| 0 <= d < data.dims() implies data.clamped(point)[d] == point[d] by {
            lemma_nd_axis_extent(data, d);
            assert(data.in_axis(d, point[d]));
            lemma_clamp(point[d], data.lo(d), data.hi(d));
        }
        assert(data.clamped(point) =~= point);
    }
}

/// Within the grid of N-D data the extrapolation setting plays no part: interpolating a
/// point inside the grid gives the strategy's value there.
pub proof fn lemma_nd_inside_uses_strategy<
    T: PartialOrd + Add<Output = T> + Sub<Output = T> + Rem<Output = T>,
    S: StrategyND<T>,
>(
    data: InterpDataNDBase<T>,
    strategy: S,
    extrapolate: Extrapolate<T>,
    point: Seq<T>,
    r: Result<T, InterpolateError>,
)
    requires
        data.contains_point(point),
        interpolate_nd_outcome(data, strategy, extrapolate, point, r),
    ensures
        r == strategy.interpolation(data, point),
{
}

/// No out-of-bounds entry among the first `n` points of an N-D batch means each of them
/// lies within the grid.
proof fn lemma_nd_batch_inside<T: PartialOrd>(data: InterpDataNDBase<T>, points: Seq<Seq<T>>, n: int)
    requires
        0 <= n <= points.len(),
        data.out_of_bounds_batch(points, n).len() == 0,
    ensures
        forall|i: int| 0 <= i < n ==> data.contains_point(#[trigger] points[i]),
    decreases n,
{
    if n > 0 {
        lemma_nd_batch_inside(data, points, n - 1);
        data.lemma_out_of_bounds_upto(points[n - 1], (n - 1) as usize, data.dims() as int);
        assert forall|i: int| 0 <= i < n implies data.contains_point(#[trigger] points[i]) by {
            if i == n - 1 {
                assert(forall|k: int| 0 <= k < data.dims() ==> #[trigger] data.in_axis(k, points[i][k]));
            }
        }
    }
}

/// A successful N-D batch call gives every point the value that interpolating it alone
/// gives, whatever the extrapolation setting.
pub proof fn lemma_nd_batch_matches_single<
    T: PartialOrd + Add<Output = T> + Sub<Output = T> + Rem<Output = T>,
    S: StrategyND<T>,
>(
    data: InterpDataNDBase<T>,
    strategy: S,
    extrapolate: Extrapolate<T>,
    points: Seq<Seq<T>>,
    before: Seq<T>,
    after: Seq<T>,
)
    requires
        ordered::<T>(),
        data.valid(),
        forall|i: int| 0 <= i < points.len() ==> (#[trigger] points[i]).len() == data.dims(),
        batch_nd_outcome(data, strategy, extrapolate, points, Ok::<(), InterpolateError>(()), before, after),
    ensures
        forall|i: int|
            0 <= i < points.len() ==> interpolate_nd_outcome(
                data,
                strategy,
                extrapolate,
                #[trigger] points[i],
                Ok::<T, InterpolateError>(after[i]),
            ),
{
    match extrapolate {
        Extrapolate::Clamp => {
            assert forall|i: int| 0 <= i < points.len() implies interpolate_nd_outcome(
                data,
                strategy,
                extrapolate,
                #[trigger] points[i],
                Ok::<T, InterpolateError>(after[i]),
            ) by {
                let cq = points.map_values(|p: Seq<T>| data.clamped(p));
                assert(cq[i] == data.clamped(points[i]));
                assert(strategy.interpolation(data, cq[i]) == Ok::<T, InterpolateError>(after[i]));
                lemma_nd_clamped_point_inside(data, points[i]);
            }
        },
        Extrapolate::Wrap => {
            assert forall|i: int| 0 <= i < points.len() implies interpolate_nd_outcome(
                data,
                strategy,
                extrapolate,
                #[trigger] points[i],
                Ok::<T, InterpolateError>(after[i]),
            ) by {
                let wq = points.map_values(|p: Seq<T>| data.wrapped_if_outside(p));
                assert(wq[i] == data.wrapped_if_outside(points[i]));
                assert(strategy.interpolation(data, wq[i]) == Ok::<T, InterpolateError>(after[i]));
            }
        },
        Extrapolate::Error => {
            let errs = data.out_of_bounds_batch(points, points.len() as int);
            if errs.len() == 0 {
                lemma_nd_batch_inside(data, points, points.len() as int);
            }
            assert forall|i: int| 0 <= i < points.len() implies interpolate_nd_outcome(
                data,
                strategy,
                extrapolate,
                #[trigger] points[i],
                Ok::<T, InterpolateError>(after[i]),
            ) by {
                assert(data.contains_point(points[i]));
                assert(strategy.interpolation(data, points[i]) == Ok::<T, InterpolateError>(after[i]));
            }
        },
        Extrapolate::Fill(v) => {
            assert forall|i: int| 0 <= i < points.len() implies interpolate_nd_outcome(
                data,
                strategy,
                extrapolate,
                #[trigger] points[i],
                Ok::<T, InterpolateError>(after[i]),
            ) by {
                if data.contains_point(points[i]) {
                    assert(strategy.interpolation(data, points[i]) == Ok::<T, InterpolateError>(after[i]));
                } else {
                    assert(after[i] == v);
                }
            }
        },
        Extrapolate::Enable => {
            assert forall|i: int| 0 <= i < points.len() implies interpolate_nd_outcome(
                data,
                strategy,
                extrapolate,
                #[trigger] points[i],
                Ok::<T, InterpolateError>(after[i]),
            ) by {
                assert(strategy.interpolation(data, points[i]) == Ok::<T, InterpolateError>(after[i]));
            }
        },
    }
}

/// An N-D interpolator that construction accepts passes validation: the data, the
/// initialized strategy and the extrapolation setting that `new` assembles validate.
pub proof fn lemma_nd_constructed_validates<T: PartialOrd, S: StrategyND<T>>(
    data: InterpDataNDBase<T>,
    strategy: S,
    extrapolate: Extrapolate<T>,
)
    requires
        construction_nd(data, strategy, extrapolate) is Ok,
    ensures
        validation_nd(data, strategy.initialized(data).0, extrapolate) is Ok,
{
    strategy.lemma_initialized(data);
}

/// A grid point of valid N-D data, given by one position per axis, lies within the grid.
pub proof fn lemma_nd_grid_point_inside<T: PartialOrd>(data: InterpDataNDBase<T>, point: Seq<T>, at: Seq<int>)
    requires
        ordered::<T>(),
        data.valid(),
        point.len() == data.dims(),
        at.len() == data.dims(),
        forall|d: int|
            0 <= d < data.dims() ==> 0 <= #[trigger] at[d] < data.coords(d).len() && point[d] == data.coords(d)[at[d]],
    ensures
        data.contains_point(point),
{
    assert forall|d: int| 0 <= d < data.dims() implies #[trigger] data.in_axis(d, point[d]) by {
        let s = data.coords(d);
        let i = at[d];
        lemma_nd_axis_extent(data, d);
        lemma_sorted_from_adjacent(s);
        assert(le(s[i], s[i]));
        if i > 0 {
            assert(lt(s[0], s[i]));
        }
        if i < s.len() - 1 {
            assert(lt(s[i], s[s.len() - 1]));
        }
    }
}

/// Interpolating valid N-D data with a step strategy at a grid point returns the value
/// stored there, whatever the extrapolation setting.
pub proof fn lemma_nd_step_interpolates_grid_values<
    T: PartialOrd + Copy + Add<Output = T> + Sub<Output = T> + Rem<Output = T>,
>(
    data: InterpDataNDBase<T>,
    step: Step,
    extrapolate: Extrapolate<T>,
    point: Seq<T>,
    at: Seq<int>,
    r: Result<T, InterpolateError>,
)
    requires
        ordered::<T>(),
        data.valid(),
        point.len() == data.dims(),
        at.len() == data.dims(),
        forall|d: int|
            0 <= d < data.dims() ==> 0 <= #[trigger] at[d] < data.coords(d).len() && point[d] == data.coords(d)[at[d]],
        interpolate_nd_outcome(data, step, extrapolate, point, r),
    ensures
        r == Ok::<T, InterpolateError>(value_at(data, at)),
{
    lemma_nd_grid_point_inside(data, point, at);
    assert forall|d: int| 0 <= d < data.dims() implies step_index(step.direction(d), data.coords(d), point[d])
        == #[trigger] at[d] by {
        assert(strictly_increasing(data.coords(d)));
        lemma_step_index_at_grid_point(step.direction(d), data.coords(d), at[d]);
    }
    assert(step_positions(step, data, point) =~= at);
}

/// Interpolating valid N-D integer data with nearest-neighbour interpolation at a grid
/// point returns the value stored there, whatever the extrapolation setting.
pub proof fn lemma_nd_nearest_interpolates_grid_values<
    T: Integer + Add<Output = T> + Sub<Output = T> + Rem<Output = T>,
>(
    data: InterpDataNDBase<T>,
    extrapolate: Extrapolate<T>,
    point: Seq<T>,
    at: Seq<int>,
    r: Result<T, InterpolateError>,
)
    requires
        data.valid(),
        point.len() == data.dims(),
        at.len() == data.dims(),
        forall|d: int|
            0 <= d < data.dims() ==> 0 <= #[trigger] at[d] < data.coords(d).len() && point[d] == data.coords(d)[at[d]],
        interpolate_nd_outcome(data, Nearest, extrapolate, point, r),
    ensures
        r == Ok::<T, InterpolateError>(value_at(data, at)),
{
    if data.dims() == 0 {
        assert(nearest_positions(data, point) =~= at);
    } else {
        T::lemma_integer(point[0], point[0]);
        lemma_nd_grid_point_inside(data, point, at);
        assert forall|d: int| 0 <= d < data.dims() implies nearest_index(data.coords(d), point[d])
            == #[trigger] at[d] by {
            assert(strictly_increasing(data.coords(d)));
            lemma_nearest_at_grid_point(data.coords(d), at[d]);
        }
        assert(nearest_positions(data, point) =~= at);
    }
}

/// The entries reported below axis `d` for a point of N-D data: each carries `index`, names an axis
/// below `d` on which the point leaves the grid, the axes increase from entry to entry,
/// and every such axis is named.
proof fn lemma_nd_out_of_bounds_entries<T: PartialOrd>(
    data: InterpDataNDBase<T>,
    point: Seq<T>,
    index: usize,
    d: int,
)
    requires
        0 <= d <= data.dims(),
    ensures
        forall|k: int|
            0 <= k < data.out_of_bounds_upto(point, index, d).len() ==> {
                let e = #[trigger] data.out_of_bounds_upto(point, index, d)[k];
                &&& e.index == index
                &&& e.dim < d
                &&& !data.in_axis(e.dim as int, point[e.dim as int])
            },
        forall|k: int, m: int|
            0 <= k < m < data.out_of_bounds_upto(point, index, d).len() ==> (#[trigger] data.out_of_bounds_upto(
                point,
                index,
                d,
            )[k]).dim < (#[trigger] data.out_of_bounds_upto(point, index, d)[m]).dim,
        forall|a: int|
            0 <= a < d && !(#[trigger] data.in_axis(a, point[a])) ==> exists|k: int|
                0 <= k < data.out_of_bounds_upto(point, index, d).len() && (#[trigger] data.out_of_bounds_upto(
                    point,
                    index,
                    d,
                )[k]).dim == a,
    decreases d,
{
    data.values.lemma_dims_bounded();
    if d > 0 {
        lemma_nd_out_of_bounds_entries(data, point, index, d - 1);
        let prev = data.out_of_bounds_upto(point, index, d - 1);
        let cur = data.out_of_bounds_upto(point, index, d);
        if !data.in_axis(d - 1, point[d - 1]) {
            assert(cur == prev.push(OutOfBoundsAt { index: index, dim: (d - 1) as usize }));
            assert forall|a: int| 0 <= a < d && !(#[trigger] data.in_axis(a, point[a])) implies exists|k: int|
                0 <= k < cur.len() && (#[trigger] cur[k]).dim == a by {
                if a == d - 1 {
                    assert(cur[prev.len() as int].dim == a);
                } else {
                    let k = choose|k: int| 0 <= k < prev.len() && (#[trigger] prev[k]).dim == a;
                    assert(cur[k] == prev[k]);
                }
            }
        } else {
            assert forall|a: int| 0 <= a < d && !(#[trigger] data.in_axis(a, point[a])) implies exists|k: int|
                0 <= k < cur.len() && (#[trigger] cur[k]).dim == a by {
                assert(a != d - 1);
            }
        }
    }
}

/// With the `Error` setting, a point beyond the grid of N-D data is refused with one entry per axis
/// on which it leaves the grid, in axis order, each with index 0; the list is never
/// empty.
pub proof fn lemma_nd_error_lists_outside_axes<
    T: PartialOrd + Add<Output = T> + Sub<Output = T> + Rem<Output = T>,
    S: StrategyND<T>,
>(
    data: InterpDataNDBase<T>,
    strategy: S,
    point: Seq<T>,
    r: Result<T, InterpolateError>,
)
    requires
        !data.contains_point(point),
        interpolate_nd_outcome(data, strategy, Extrapolate::Error, point, r),
    ensures
        r matches Err(InterpolateError::OutOfBounds(v)) && {
            &&& v@.len() > 0
            &&& forall|k: int|
                0 <= k < v@.len() ==> (#[trigger] v@[k]).index == 0 && v@[k].dim < data.dims() && !data.in_axis(
                    v@[k].dim as int,
                    point[v@[k].dim as int],
                )
            &&& forall|k: int, m: int| 0 <= k < m < v@.len() ==> (#[trigger] v@[k]).dim < (#[trigger] v@[m]).dim
            &&& forall|a: int|
                0 <= a < data.dims() && !(#[trigger] data.in_axis(a, point[a])) ==> exists|k: int|
                    0 <= k < v@.len() && (#[trigger] v@[k]).dim == a
        },
{
    data.lemma_out_of_bounds_upto(point, 0, data.dims() as int);
    lemma_nd_out_of_bounds_entries(data, point, 0, data.dims() as int);
}

/// With the `Fill` setting, a point beyond the grid of N-D data gives the fill value.
pub proof fn lemma_nd_fill_outside<
    T: PartialOrd + Add<Output = T> + Sub<Output = T> + Rem<Output = T>,
    S: StrategyND<T>,
>(
    data: InterpDataNDBase<T>,
    strategy: S,
    value: T,
    point: Seq<T>,
    r: Result<T, InterpolateError>,
)
    requires
        !data.contains_point(point),
        interpolate_nd_outcome(data, strategy, Extrapolate::Fill(value), point, r),
    ensures
        r == Ok::<T, InterpolateError>(value),
{
}

/// A constant unit-aware interpolator returns the quantity it was built from.
pub proof fn lemma_uom_constant_returns_quantity<Q: BaseUnit<V>, V: Copy>(q: Q, it: UomInterp0D<Q, V>)
    requires
        it.inner.0 == q.base_value(),
    ensures
        Q::from_base_value(it.inner.0) == q,
{
    Q::lemma_base_round_trip(q);
}

/// A point of the first `n` of an N-D batch that lies beyond the grid gives the batch at
/// least one out-of-bounds entry.
proof fn lemma_nd_batch_outside<T: PartialOrd>(data: InterpDataNDBase<T>, points: Seq<Seq<T>>, n: int, i: int)
    requires
        0 <= i < n <= points.len(),
        !data.contains_point(points[i]),
    ensures
        data.out_of_bounds_batch(points, n).len() > 0,
    decreases n,
{
    if i < n - 1 {
        lemma_nd_batch_outside(data, points, n - 1, i);
    } else {
        data.lemma_out_of_bounds_upto(points[i], i as usize, data.dims() as int);
    }
}

/// With the `Error` setting, an N-D batch with a point beyond the grid is refused with a
/// non-empty list of out-of-bounds entries and leaves the output alone; a batch whose
/// points all lie within the grid is evaluated point by point.
pub proof fn lemma_nd_batch_error_iff_outside<
    T: PartialOrd + Add<Output = T> + Sub<Output = T> + Rem<Output = T>,
    S: StrategyND<T>,
>(
    data: InterpDataNDBase<T>,
    strategy: S,
    points: Seq<Seq<T>>,
    r: Result<(), InterpolateError>,
    before: Seq<T>,
    after: Seq<T>,
)
    requires
        batch_nd_outcome(data, strategy, Extrapolate::Error, points, r, before, after),
    ensures
        (exists|i: int| 0 <= i < points.len() && !data.contains_point(#[trigger] points[i])) ==> (r matches Err(
            InterpolateError::OutOfBounds(v),
        ) && v@.len() > 0 && after == before),
        (forall|i: int| 0 <= i < points.len() ==> data.contains_point(#[trigger] points[i])) ==> each_outcome(
            strategy,
            data,
            points,
            r,
            after,
        ),
{
    let n = points.len() as int;
    if exists|i: int| 0 <= i < points.len() && !data.contains_point(#[trigger] points[i]) {
        let i = choose|i: int| 0 <= i < points.len() && !data.contains_point(#[trigger] points[i]);
        lemma_nd_batch_outside(data, points, n, i);
    }
    if forall|i: int| 0 <= i < points.len() ==> data.contains_point(#[trigger] points[i]) {
        if data.out_of_bounds_batch(points, n).len() > 0 {
            lemma_nd_batch_some_outside(data, points, n);
        }
    }
}

/// An out-of-bounds entry among the first `n` points of an N-D batch comes from a point
/// beyond the grid.
proof fn lemma_nd_batch_some_outside<T: PartialOrd>(data: InterpDataNDBase<T>, points: Seq<Seq<T>>, n: int)
    requires
        0 <= n <= points.len(),
        data.out_of_bounds_batch(points, n).len() > 0,
    ensures
        exists|i: int| 0 <= i < n && !data.contains_point(#[trigger] points[i]),
    decreases n,
{
    if n > 0 {
        data.lemma_out_of_bounds_upto(points[n - 1], (n - 1) as usize, data.dims() as int);
        if data.out_of_bounds_batch(points, n - 1).len() > 0 {
            lemma_nd_batch_some_outside(data, points, n - 1);
        } else {
            assert(!data.contains_point(points[n - 1]));
        }
    }
}

/// The floor index of `p` in a strictly increasing sequence is the position whose
/// element is at most `p` while the next one is above it.
pub proof fn lemma_floor_index_is<T: PartialOrd>(s: Seq<T>, p: T, i: int)
    requires
        ordered::<T>(),
        strictly_increasing(s),
        is_floor(s, p, i),
    ensures
        floor_index(s, p) == i,
{
    lemma_sorted_from_adjacent(s);
    if i > 0 {
        assert(lt(s[0], s[i]));
        assert(le(s[0], s[i]));
    }
    assert(le(s[0], p));
    let c = choose|j: int| is_floor(s, p, j);
    lemma_floor_unique(s, p, i, c);
}

/// The ceiling index of `p` in a strictly increasing sequence is the position whose
/// element is at least `p` while the previous one is below it.
pub proof fn lemma_ceil_index_is<T: PartialOrd>(s: Seq<T>, p: T, i: int)
    requires
        ordered::<T>(),
        strictly_increasing(s),
        is_ceil(s, p, i),
    ensures
        ceil_index(s, p) == i,
{
    lemma_sorted_from_adjacent(s);
    if i < s.len() - 1 {
        assert(lt(s[i], s[s.len() - 1]));
        assert(le(s[i], s[s.len() - 1]));
    }
    assert(le(p, s[s.len() - 1]));
    let c = choose|j: int| is_ceil(s, p, j);
    lemma_ceil_unique(s, p, i, c);
}

/// `StepLower` on valid 1-D data gives the value at the last grid coordinate at or
/// below the point.
pub proof fn lemma_step_lower_1d_is_floor<T: PartialOrd + Copy>(data: InterpData1DBase<T>, p: Seq<T>, i: int)
    requires
        ordered::<T>(),
        data.valid(),
        p.len() == 1,
        is_floor(data.axis(0), p[0], i),
    ensures
        Strategy::interpolation(&StepLower, data, p) == Ok::<T, InterpolateError>(data.values@[i]),
{
    assert(data.dim_error(0) is None);
    lemma_floor_index_is(data.axis(0), p[0], i);
}

/// `StepUpper` on valid 1-D data gives the value at the first grid coordinate at or
/// above the point.
pub proof fn lemma_step_upper_1d_is_ceil<T: PartialOrd + Copy>(data: InterpData1DBase<T>, p: Seq<T>, i: int)
    requires
        ordered::<T>(),
        data.valid(),
        p.len() == 1,
        is_ceil(data.axis(0), p[0], i),
    ensures
        Strategy::interpolation(&StepUpper, data, p) == Ok::<T, InterpolateError>(data.values@[i]),
{
    assert(data.dim_error(0) is None);
    lemma_ceil_index_is(data.axis(0), p[0], i);
}

/// `StepLower` on valid 2-D data gives the value at the last grid coordinates at or
/// below the point on each axis.
pub proof fn lemma_step_lower_2d_is_floor<T: PartialOrd + Copy>(data: InterpData2DBase<T>, p: Seq<T>, i: int, j: int)
    requires
        ordered::<T>(),
        data.valid(),
        p.len() == 2,
        is_floor(data.axis(0), p[0], i),
        is_floor(data.axis(1), p[1], j),
    ensures
        Strategy::interpolation(&StepLower, data, p) == Ok::<T, InterpolateError>(data.values@[i]@[j]),
{
    assert(data.dim_error(0) is None);
    assert(data.dim_error(1) is None);
    lemma_floor_index_is(data.axis(0), p[0], i);
    lemma_floor_index_is(data.axis(1), p[1], j);
}

/// `StepUpper` on valid 2-D data gives the value at the first grid coordinates at or
/// above the point on each axis.
pub proof fn lemma_step_upper_2d_is_ceil<T: PartialOrd + Copy>(data: InterpData2DBase<T>, p: Seq<T>, i: int, j: int)
    requires
        ordered::<T>(),
        data.valid(),
        p.len() == 2,
        is_ceil(data.axis(0), p[0], i),
        is_ceil(data.axis(1), p[1], j),
    ensures
        Strategy::interpolation(&StepUpper, data, p) == Ok::<T, InterpolateError>(data.values@[i]@[j]),
{
    assert(data.dim_error(0) is None);
    assert(data.dim_error(1) is None);
    lemma_ceil_index_is(data.axis(0), p[0], i);
    lemma_ceil_index_is(data.axis(1), p[1], j);
}

/// `StepLower` on valid 3-D data gives the value at the last grid coordinates at or
/// below the point on each axis.
pub proof fn lemma_step_lower_3d_is_floor<T: PartialOrd + Copy>(
    data: InterpData3DBase<T>,
    p: Seq<T>,
    i: int,
    j: int,
    k: int,
)
    requires
        ordered::<T>(),
        data.valid(),
        p.len() == 3,
        is_floor(data.axis(0), p[0], i),
        is_floor(data.axis(1), p[1], j),
        is_floor(data.axis(2), p[2], k),
    ensures
        Strategy::interpolation(&StepLower, data, p) == Ok::<T, InterpolateError>(data.values@[i]@[j]@[k]),
{
    assert(data.dim_error(0) is None);
    assert(data.dim_error(1) is None);
    assert(data.dim_error(2) is None);
    lemma_floor_index_is(data.axis(0), p[0], i);
    lemma_floor_index_is(data.axis(1), p[1], j);
    lemma_floor_index_is(data.axis(2), p[2], k);
}

/// `StepUpper` on valid 3-D data gives the value at the first grid coordinates at or
/// above the point on each axis.
pub proof fn lemma_step_upper_3d_is_ceil<T: PartialOrd + Copy>(
    data: InterpData3DBase<T>,
    p: Seq<T>,
    i: int,
    j: int,
    k: int,
)
    requires
        ordered::<T>(),
        data.valid(),
        p.len() == 3,
        is_ceil(data.axis(0), p[0], i),
        is_ceil(data.axis(1), p[1], j),
        is_ceil(data.axis(2), p[2], k),
    ensures
        Strategy::interpolation(&StepUpper, data, p) == Ok::<T, InterpolateError>(data.values@[i]@[j]@[k]),
{
    assert(data.dim_error(0) is None);
    assert(data.dim_error(1) is None);
    assert(data.dim_error(2) is None);
    lemma_ceil_index_is(data.axis(0), p[0], i);
    lemma_ceil_index_is(data.axis(1), p[1], j);
    lemma_ceil_index_is(data.axis(2), p[2], k);
}

/// Wrapping an `i64` point around valid N-D data moves each coordinate to the axis's
/// first coordinate plus the Euclidean remainder of its offset from it by the axis's
/// extent, which lies within the axis; a coordinate already in `[lo, hi)` stays put,
/// and the wrapped point lies within the grid.
pub proof fn lemma_nd_wrapped_i64(data: InterpDataNDBase<i64>, point: Seq<i64>)
    requires
        data.valid(),
        point.len() == data.dims(),
        forall|d: int| 0 <= d < data.dims() ==> #[trigger] wrap_defined(point[d], data.lo(d), data.hi(d)),
    ensures
        forall|d: int|
            0 <= d < data.dims() ==> (#[trigger] data.wrapped(point)[d]) == data.lo(d) + (point[d] - data.lo(d)) % (
            data.hi(d) - data.lo(d)),
        forall|d: int| 0 <= d < data.dims() ==> data.lo(d) <= #[trigger] data.wrapped(point)[d] < data.hi(d),
        forall|d: int|
            0 <= d < data.dims() && data.lo(d) <= point[d] < data.hi(d) ==> #[trigger] data.wrapped(point)[d]
                == point[d],
        data.contains_point(data.wrapped(point)),
{
    crate::order::lemma_ordered_i64();
    assert forall|d: int| 0 <= d < data.dims() implies {
        &&& (#[trigger] data.wrapped(point)[d]) == data.lo(d) + (point[d] - data.lo(d)) % (data.hi(d) - data.lo(d))
        &&& data.lo(d) <= data.wrapped(point)[d] < data.hi(d)
        &&& data.lo(d) <= point[d] < data.hi(d) ==> data.wrapped(point)[d] == point[d]
        &&& data.in_axis(d, data.wrapped(point)[d])
    } by {
        lemma_nd_axis_extent(data, d);
        assert(wrap_defined(point[d], data.lo(d), data.hi(d)));
        lemma_wrap_i64(point[d], data.lo(d), data.hi(d));
        if data.lo(d) <= point[d] < data.hi(d) {
            lemma_wrap_i64_identity(point[d], data.lo(d), data.hi(d));
        }
    }
}

/// Wrapping an `i64` point around valid data of `N` axes moves each coordinate to the
/// axis's first coordinate plus the Euclidean remainder of its offset from it by the
/// axis's extent; a coordinate already in `[lo, hi)` stays put.
pub proof fn lemma_wrapped_i64<V: Values<i64, N>, const N: usize>(data: InterpDataBase<i64, V, N>, point: Seq<i64>)
    requires
        data.valid(),
        point.len() == N,
        forall|d: int| 0 <= d < N ==> #[trigger] wrap_defined(point[d], data.lo(d), data.hi(d)),
    ensures
        forall|d: int|
            0 <= d < N ==> (#[trigger] data.wrapped(point)[d]) == data.lo(d) + (point[d] - data.lo(d)) % (data.hi(d)
                - data.lo(d)),
        forall|d: int|
            0 <= d < N && data.lo(d) <= point[d] < data.hi(d) ==> #[trigger] data.wrapped(point)[d] == point[d],
{
    crate::order::lemma_ordered_i64();
    assert forall|d: int| 0 <= d < N implies {
        &&& (#[trigger] data.wrapped(point)[d]) == data.lo(d) + (point[d] - data.lo(d)) % (data.hi(d) - data.lo(d))
        &&& data.lo(d) <= point[d] < data.hi(d) ==> data.wrapped(point)[d] == point[d]
    } by {
        lemma_axis_extent(data, d);
        assert(wrap_defined(point[d], data.lo(d), data.hi(d)));
        lemma_wrap_i64(point[d], data.lo(d), data.hi(d));
        if data.lo(d) <= point[d] < data.hi(d) {
            lemma_wrap_i64_identity(point[d], data.lo(d), data.hi(d));
        }
    }
}

/// A successful batch of a 3-D unit-aware interpolator gives each point, converted from
/// its base-unit value, what interpolating that point alone, at its coordinates'
/// base-unit values in the order x, y, z, gives.
pub proof fn lemma_uom_3d_batch_matches_single<
    V: PartialOrd + Copy + Add<Output = V> + Sub<Output = V> + Rem<Output = V>,
    Qx: BaseUnit<V>,
    Qy: BaseUnit<V>,
    Qz: BaseUnit<V>,
    Qv: BaseUnit<V>,
    S: Strategy<V, Vec<Vec<Vec<V>>>, 3>,
>(it: UomInterp3DBase<V, Qx, Qy, Qz, Qv, S>, points: Seq<(Qx, Qy, Qz)>, r: Result<Vec<Qv>, InterpolateError>)
    requires
        ordered::<V>(),
        it.inner.data.valid(),
        exists|raw: Seq<[V; 3]>, inner: Result<Vec<V>, InterpolateError>|
            #![trigger views(raw), converted_vec::<V, Qv>(inner, r)]
            views(raw) == base_points3(points) && batch_vec_outcome(
                it.inner.data,
                it.inner.strategy,
                it.inner.extrapolate,
                raw,
                inner,
            ) && converted_vec::<V, Qv>(inner, r),
    ensures
        r matches Ok(v) ==> v@.len() == points.len() && forall|i: int|
            0 <= i < points.len() ==> exists|single: Result<V, InterpolateError>|
                interpolate_outcome(
                    it.inner.data,
                    it.inner.strategy,
                    it.inner.extrapolate,
                    seq![(#[trigger] points[i]).0.base_value(), points[i].1.base_value(), points[i].2.base_value()],
                    single,
                ) && Ok::<Qv, InterpolateError>(v@[i]) == map_base::<V, Qv>(single),
{
    let (raw, inner) = choose|raw: Seq<[V; 3]>, inner: Result<Vec<V>, InterpolateError>|
        #![trigger views(raw), converted_vec::<V, Qv>(inner, r)]
        views(raw) == base_points3(points) && batch_vec_outcome(
            it.inner.data,
            it.inner.strategy,
            it.inner.extrapolate,
            raw,
            inner,
        ) && converted_vec::<V, Qv>(inner, r);
    if r is Ok {
        let v = r->Ok_0;
        let w = inner->Ok_0;
        let (before, after) = choose|before: Seq<V>, after: Seq<V>|
            #![trigger before.len(), after.len()]
            before.len() == raw.len() && after.len() == raw.len() && w@ == after && batch_into_outcome(
                it.inner.data,
                it.inner.strategy,
                it.inner.extrapolate,
                views(raw),
                Ok::<(), InterpolateError>(()),
                before,
                after,
            );
        let q = views(raw);
        assert forall|i: int| 0 <= i < q.len() implies (#[trigger] q[i]).len() == 3 by {
            assert(q[i] == raw[i]@);
        }
        lemma_batch_matches_single(it.inner.data, it.inner.strategy, it.inner.extrapolate, q, before, after);
        assert forall|i: int| 0 <= i < points.len() implies exists|single: Result<V, InterpolateError>|
            interpolate_outcome(
                it.inner.data,
                it.inner.strategy,
                it.inner.extrapolate,
                seq![(#[trigger] points[i]).0.base_value(), points[i].1.base_value(), points[i].2.base_value()],
                single,
            ) && Ok::<Qv, InterpolateError>(v@[i]) == map_base::<V, Qv>(single) by {
            assert(q[i] == base_points3(points)[i]);
            assert(q[i] == seq![points[i].0.base_value(), points[i].1.base_value(), points[i].2.base_value()]);
            assert(interpolate_outcome(it.inner.data, it.inner.strategy, it.inner.extrapolate, q[i], Ok::<V, InterpolateError>(after[i])));
            assert(v@[i] == Qv::from_base_value(after[i]));
            let single = Ok::<V, InterpolateError>(after[i]);
            assert(Ok::<Qv, InterpolateError>(v@[i]) == map_base::<V, Qv>(single));
            assert(interpolate_outcome(
                it.inner.data,
                it.inner.strategy,
                it.inner.extrapolate,
                seq![points[i].0.base_value(), points[i].1.base_value(), points[i].2.base_value()],
                single,
            ));
        }
    }
}

/// A successful batch of a 2-D unit-aware interpolator gives each point, converted from
/// its base-unit value, what interpolating that point alone, at its coordinates'
/// base-unit values in the order x, y, gives.
pub proof fn lemma_uom_2d_batch_matches_single<
    V: PartialOrd + Copy + Add<Output = V> + Sub<Output = V> + Rem<Output = V>,
    Qx: BaseUnit<V>,
    Qy: BaseUnit<V>,
    Qv: BaseUnit<V>,
    S: Strategy<V, Vec<Vec<V>>, 2>,
>(it: UomInterp2DBase<V, Qx, Qy, Qv, S>, points: Seq<(Qx, Qy)>, r: Result<Vec<Qv>, InterpolateError>)
    requires
        ordered::<V>(),
        it.inner.data.valid(),
        exists|raw: Seq<[V; 2]>, inner: Result<Vec<V>, InterpolateError>|
            #![trigger views(raw), converted_vec::<V, Qv>(inner, r)]
            views(raw) == base_points2(points) && batch_vec_outcome(
                it.inner.data,
                it.inner.strategy,
                it.inner.extrapolate,
                raw,
                inner,
            ) && converted_vec::<V, Qv>(inner, r),
    ensures
        r matches Ok(v) ==> v@.len() == points.len() && forall|i: int|
            0 <= i < points.len() ==> exists|single: Result<V, InterpolateError>|
                interpolate_outcome(
                    it.inner.data,
                    it.inner.strategy,
                    it.inner.extrapolate,
                    seq![(#[trigger] points[i]).0.base_value(), points[i].1.base_value()],
                    single,
                ) && Ok::<Qv, InterpolateError>(v@[i]) == map_base::<V, Qv>(single),
{
    let (raw, inner) = choose|raw: Seq<[V; 2]>, inner: Result<Vec<V>, InterpolateError>|
        #![trigger views(raw), converted_vec::<V, Qv>(inner, r)]
        views(raw) == base_points2(points) && batch_vec_outcome(
            it.inner.data,
            it.inner.strategy,
            it.inner.extrapolate,
            raw,
            inner,
        ) && converted_vec::<V, Qv>(inner, r);
    if r is Ok {
        let v = r->Ok_0;
        let w = inner->Ok_0;
        let (before, after) = choose|before: Seq<V>, after: Seq<V>|
            #![trigger before.len(), after.len()]
            before.len() == raw.len() && after.len() == raw.len() && w@ == after && batch_into_outcome(
                it.inner.data,
                it.inner.strategy,
                it.inner.extrapolate,
                views(raw),
                Ok::<(), InterpolateError>(()),
                before,
                after,
            );
        let q = views(raw);
        assert forall|i: int| 0 <= i < q.len() implies (#[trigger] q[i]).len() == 2 by {
            assert(q[i] == raw[i]@);
        }
        lemma_batch_matches_single(it.inner.data, it.inner.strategy, it.inner.extrapolate, q, before, after);
        assert forall|i: int| 0 <= i < points.len() implies exists|single: Result<V, InterpolateError>|
            interpolate_outcome(
                it.inner.data,
                it.inner.strategy,
                it.inner.extrapolate,
                seq![(#[trigger] points[i]).0.base_value(), points[i].1.base_value()],
                single,
            ) && Ok::<Qv, InterpolateError>(v@[i]) == map_base::<V, Qv>(single) by {
            assert(q[i] == base_points2(points)[i]);
            assert(q[i] == seq![points[i].0.base_value(), points[i].1.base_value()]);
            assert(interpolate_outcome(it.inner.data, it.inner.strategy, it.inner.extrapolate, q[i], Ok::<V, InterpolateError>(after[i])));
            assert(v@[i] == Qv::from_base_value(after[i]));
            let single = Ok::<V, InterpolateError>(after[i]);
            assert(Ok::<Qv, InterpolateError>(v@[i]) == map_base::<V, Qv>(single));
            assert(interpolate_outcome(
                it.inner.data,
                it.inner.strategy,
                it.inner.extrapolate,
                seq![points[i].0.base_value(), points[i].1.base_value()],
                single,
            ));
        }
    }
}

/// A successful batch of a 1-D unit-aware interpolator gives each point, converted from
/// its base-unit value, what interpolating that point alone, at its coordinate's
/// base-unit value, gives.
pub proof fn lemma_uom_1d_batch_matches_single<
    V: PartialOrd + Copy + Add<Output = V> + Sub<Output = V> + Rem<Output = V>,
    Qx: BaseUnit<V>,
    Qv: BaseUnit<V>,
    S: Strategy<V, Vec<V>, 1>,
>(it: UomInterp1DBase<V, Qx, Qv, S>, points: Seq<Qx>, r: Result<Vec<Qv>, InterpolateError>)
    requires
        ordered::<V>(),
        it.inner.data.valid(),
        exists|raw: Seq<[V; 1]>, inner: Result<Vec<V>, InterpolateError>|
            #![trigger views(raw), converted_vec::<V, Qv>(inner, r)]
            views(raw) == base_points1(points) && batch_vec_outcome(
                it.inner.data,
                it.inner.strategy,
                it.inner.extrapolate,
                raw,
                inner,
            ) && converted_vec::<V, Qv>(inner, r),
    ensures
        r matches Ok(v) ==> v@.len() == points.len() && forall|i: int|
            0 <= i < points.len() ==> exists|single: Result<V, InterpolateError>|
                interpolate_outcome(
                    it.inner.data,
                    it.inner.strategy,
                    it.inner.extrapolate,
                    seq![(#[trigger] points[i]).base_value()],
                    single,
                ) && Ok::<Qv, InterpolateError>(v@[i]) == map_base::<V, Qv>(single),
{
    let (raw, inner) = choose|raw: Seq<[V; 1]>, inner: Result<Vec<V>, InterpolateError>|
        #![trigger views(raw), converted_vec::<V, Qv>(inner, r)]
        views(raw) == base_points1(points) && batch_vec_outcome(
            it.inner.data,
            it.inner.strategy,
            it.inner.extrapolate,
            raw,
            inner,
        ) && converted_vec::<V, Qv>(inner, r);
    if r is Ok {
        let v = r->Ok_0;
        let w = inner->Ok_0;
        let (before, after) = choose|before: Seq<V>, after: Seq<V>|
            #![trigger before.len(), after.len()]
            before.len() == raw.len() && after.len() == raw.len() && w@ == after && batch_into_outcome(
                it.inner.data,
                it.inner.strategy,
                it.inner.extrapolate,
                views(raw),
                Ok::<(), InterpolateError>(()),
                before,
                after,
            );
        let q = views(raw);
        assert forall|i: int| 0 <= i < q.len() implies (#[trigger] q[i]).len() == 1 by {
            assert(q[i] == raw[i]@);
        }
        lemma_batch_matches_single(it.inner.data, it.inner.strategy, it.inner.extrapolate, q, before, after);
        assert forall|i: int| 0 <= i < points.len() implies exists|single: Result<V, InterpolateError>|
            interpolate_outcome(
                it.inner.data,
                it.inner.strategy,
                it.inner.extrapolate,
                seq![(#[trigger] points[i]).base_value()],
                single,
            ) && Ok::<Qv, InterpolateError>(v@[i]) == map_base::<V, Qv>(single) by {
            assert(q[i] == base_points1(points)[i]);
            assert(q[i] == seq![points[i].base_value()]);
            assert(interpolate_outcome(it.inner.data, it.inner.strategy, it.inner.extrapolate, q[i], Ok::<V, InterpolateError>(after[i])));
            assert(v@[i] == Qv::from_base_value(after[i]));
            let single = Ok::<V, InterpolateError>(after[i]);
            assert(Ok::<Qv, InterpolateError>(v@[i]) == map_base::<V, Qv>(single));
            assert(interpolate_outcome(
                it.inner.data,
                it.inner.strategy,
                it.inner.extrapolate,
                seq![points[i].base_value()],
                single,
            ));
        }
    }
}

/// `StepLower` on valid N-D data gives the value at the last grid coordinate at or
/// below the point on every axis.
pub proof fn lemma_nd_step_lower_is_floor<T: PartialOrd + Copy>(data: InterpDataNDBase<T>, p: Seq<T>, at: Seq<int>)
    requires
        ordered::<T>(),
        data.valid(),
        p.len() == data.dims(),
        at.len() == data.dims(),
        forall|d: int| 0 <= d < data.dims() ==> is_floor(data.coords(d), p[d], #[trigger] at[d]),
    ensures
        StrategyND::interpolation(&StepLower, data, p) == Ok::<T, InterpolateError>(value_at(data, at)),
{
    assert forall|d: int| 0 <= d < data.dims() implies step_index(StepDirection::Lower, data.coords(d), p[d])
        == #[trigger] at[d] by {
        assert(strictly_increasing(data.coords(d)));
        lemma_floor_index_is(data.coords(d), p[d], at[d]);
    }
    assert(uniform_step_positions(StepDirection::Lower, data, p) =~= at);
}

/// `StepUpper` on valid N-D data gives the value at the first grid coordinate at or
/// above the point on every axis.
pub proof fn lemma_nd_step_upper_is_ceil<T: PartialOrd + Copy>(data: InterpDataNDBase<T>, p: Seq<T>, at: Seq<int>)
    requires
        ordered::<T>(),
        data.valid(),
        p.len() == data.dims(),
        at.len() == data.dims(),
        forall|d: int| 0 <= d < data.dims() ==> is_ceil(data.coords(d), p[d], #[trigger] at[d]),
    ensures
        StrategyND::interpolation(&StepUpper, data, p) == Ok::<T, InterpolateError>(value_at(data, at)),
{
    assert forall|d: int| 0 <= d < data.dims() implies step_index(StepDirection::Upper, data.coords(d), p[d])
        == #[trigger] at[d] by {
        assert(strictly_increasing(data.coords(d)));
        lemma_ceil_index_is(data.coords(d), p[d], at[d]);
    }
    assert(uniform_step_positions(StepDirection::Upper, data, p) =~= at);
}

/// Values of two axes are laid out row by row: the element at positions `(i, j)` of an
/// `a`-by-`b` array is the `i * b + j`-th.
pub proof fn lemma_flat_index_2(a: usize, b: usize, i: int, j: int)
    ensures
        flat_index(seq![a, b], seq![i, j]) == i * b + j,
{
    assert(seq![a, b].drop_last() =~= seq![a]);
    assert(seq![i, j].drop_last() =~= seq![i]);
    assert(seq![a].drop_last() =~= Seq::<usize>::empty());
    assert(seq![i].drop_last() =~= Seq::<int>::empty());
    assert(flat_index(Seq::<usize>::empty(), Seq::<int>::empty()) == 0);
    assert(seq![a].last() == a && seq![i].last() == i);
    assert(flat_index(seq![a], seq![i]) == 0 * a + i);
    assert(flat_index(seq![a], seq![i]) == i);
    assert(seq![a, b].last() == b && seq![i, j].last() == j);
    assert(flat_index(seq![a, b], seq![i, j]) == flat_index(seq![a], seq![i]) * b + j);
}

/// Values of three axes are laid out slice by slice and row by row: the element at
/// positions `(i, j, k)` of an `a`-by-`b`-by-`c` array is the `i * b * c + j * c + k`-th.
pub proof fn lemma_flat_index_3(a: usize, b: usize, c: usize, i: int, j: int, k: int)
    ensures
        flat_index(seq![a, b, c], seq![i, j, k]) == i * b * c + j * c + k,
{
    assert(seq![a, b, c].drop_last() =~= seq![a, b]);
    assert(seq![i, j, k].drop_last() =~= seq![i, j]);
    lemma_flat_index_2(a, b, i, j);
    assert((i * b + j) * c + k == i * b * c + j * c + k) by (nonlinear_arith);
}

/// The grid position a step in `direction` takes for `p`: for `Lower` the last position
/// at or below `p`, for `Upper` the first at or above it.
pub open spec fn steps_to<T: PartialOrd>(direction: StepDirection, s: Seq<T>, p: T, i: int) -> bool {
    match direction {
        StepDirection::Lower => is_floor(s, p, i),
        StepDirection::Upper => is_ceil(s, p, i),
    }
}

/// Stepping in `direction` from `p` on a strictly increasing axis lands on the position
/// that [`steps_to`] describes.
pub proof fn lemma_step_index_is<T: PartialOrd>(direction: StepDirection, s: Seq<T>, p: T, i: int)
    requires
        ordered::<T>(),
        strictly_increasing(s),
        steps_to(direction, s, p, i),
    ensures
        step_index(direction, s, p) == i,
{
    match direction {
        StepDirection::Lower => lemma_floor_index_is(s, p, i),
        StepDirection::Upper => lemma_ceil_index_is(s, p, i),
    }
}

/// `Step` on valid 2-D data gives the value at the positions its direction on each axis
/// reaches.
pub proof fn lemma_step_2d_reaches<T: PartialOrd + Copy>(data: InterpData2DBase<T>, step: Step, p: Seq<T>, i: int, j: int)
    requires
        ordered::<T>(),
        data.valid(),
        p.len() == 2,
        steps_to(step.direction(0), data.axis(0), p[0], i),
        steps_to(step.direction(1), data.axis(1), p[1], j),
    ensures
        Strategy::interpolation(&step, data, p) == Ok::<T, InterpolateError>(data.values@[i]@[j]),
{
    assert(data.dim_error(0) is None);
    assert(data.dim_error(1) is None);
    lemma_step_index_is(step.direction(0), data.axis(0), p[0], i);
    lemma_step_index_is(step.direction(1), data.axis(1), p[1], j);
}

/// `Step` on valid 3-D data gives the value at the positions its direction on each axis
/// reaches.
pub proof fn lemma_step_3d_reaches<T: PartialOrd + Copy>(
    data: InterpData3DBase<T>,
    step: Step,
    p: Seq<T>,
    i: int,
    j: int,
    k: int,
)
    requires
        ordered::<T>(),
        data.valid(),
        p.len() == 3,
        steps_to(step.direction(0), data.axis(0), p[0], i),
        steps_to(step.direction(1), data.axis(1), p[1], j),
        steps_to(step.direction(2), data.axis(2), p[2], k),
    ensures
        Strategy::interpolation(&step, data, p) == Ok::<T, InterpolateError>(data.values@[i]@[j]@[k]),
{
    assert(data.dim_error(0) is None);
    assert(data.dim_error(1) is None);
    assert(data.dim_error(2) is None);
    lemma_step_index_is(step.direction(0), data.axis(0), p[0], i);
    lemma_step_index_is(step.direction(1), data.axis(1), p[1], j);
    lemma_step_index_is(step.direction(2), data.axis(2), p[2], k);
}

/// `Step` on valid N-D data gives the value at the positions its direction on each axis
/// reaches.
pub proof fn lemma_nd_step_reaches<T: PartialOrd + Copy>(data: InterpDataNDBase<T>, step: Step, p: Seq<T>, at: Seq<int>)
    requires
        ordered::<T>(),
        data.valid(),
        p.len() == data.dims(),
        at.len() == data.dims(),
        forall|d: int| 0 <= d < data.dims() ==> steps_to(step.direction(d), data.coords(d), p[d], #[trigger] at[d]),
    ensures
        StrategyND::interpolation(&step, data, p) == Ok::<T, InterpolateError>(value_at(data, at)),
{
    assert forall|d: int| 0 <= d < data.dims() implies step_index(step.direction(d), data.coords(d), p[d])
        == #[trigger] at[d] by {
        assert(strictly_increasing(data.coords(d)));
        lemma_step_index_is(step.direction(d), data.coords(d), p[d], at[d]);
    }
    assert(step_positions(step, data, p) =~= at);
}

/// `Step` on valid 1-D data gives the value at the position its direction reaches.
pub proof fn lemma_step_1d_reaches<T: PartialOrd + Copy>(data: InterpData1DBase<T>, step: Step, p: Seq<T>, i: int)
    requires
        ordered::<T>(),
        data.valid(),
        p.len() == 1,
        steps_to(step.direction(0), data.axis(0), p[0], i),
    ensures
        Strategy::interpolation(&step, data, p) == Ok::<T, InterpolateError>(data.values@[i]),
{
    assert(data.dim_error(0) is None);
    lemma_step_index_is(step.direction(0), data.axis(0), p[0], i);
}

} // verus!
