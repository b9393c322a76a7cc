//! Interpolators over quantities with units: grid coordinates and values are converted
//! to their dimension's base unit for the unit-free interpolator inside, and results
//! converted back.

use vstd::prelude::*;
use core::marker::PhantomData;
use core::ops::{Add, Rem, Sub};
use crate::error::{InterpolateError, ValidateError};
use crate::extrapolate::{batch_into_outcome, batch_wrap_ready, interpolate_outcome, views, Extrapolate};
use crate::data::{InterpData1DBase, InterpData2DBase, InterpData3DBase};
use crate::interp::{
    batch_vec_outcome, construction_outcome, extrapolate_validation, Interp0D, Interp1DBase, Interp2DBase, Interp3DBase,
};
use crate::order::{obeys_order, ordered};
use crate::strategy::Strategy;

verus! {

/// A quantity stored as a value of type `V` in its dimension's base unit.
///
/// Implement this for a unit-carrying type; `base_value` and `from_base_value` say
/// what the conversions return.
pub trait BaseUnit<V>: Copy + Sized {
    /// The quantity's value in its base unit.
    spec fn base_value(self) -> V;

    /// The quantity whose base-unit value is `value`.
    spec fn from_base_value(value: V) -> Self;

    /// The quantity's value in its base unit.
    fn to_base(self) -> (r: V)
        ensures
            r == self.base_value(),
    ;

    /// The quantity whose base-unit value is `value`.
    fn from_base(value: V) -> (r: Self)
        ensures
            r == Self::from_base_value(value),
    ;

    /// A quantity is the one built from its own base-unit value.
    proof fn lemma_base_round_trip(q: Self)
        ensures
            Self::from_base_value(q.base_value()) == q,
    ;
}

/// A result of the unit-free interpolator, converted to quantities of type `Q`.
pub open spec fn map_base<V, Q: BaseUnit<V>>(r: Result<V, InterpolateError>) -> Result<Q, InterpolateError> {
    match r {
        Ok(v) => Ok(Q::from_base_value(v)),
        Err(e) => Err(e),
    }
}

/// Convert a result of the unit-free interpolator to quantities of type `Q`.
fn map_result<V, Q: BaseUnit<V>>(r: Result<V, InterpolateError>) -> (m: Result<Q, InterpolateError>)
    ensures
        m == map_base::<V, Q>(r),
{
    match r {
        Ok(v) => Ok(Q::from_base(v)),
        Err(e) => Err(e),
    }
}

/// Base-unit values of a sequence of quantities.
pub open spec fn base_values<V, Q: BaseUnit<V>>(q: Seq<Q>) -> Seq<V> {
    q.map_values(|x: Q| x.base_value())
}

/// `v` holds, row by row, the base-unit values of the matrix of quantities `q`.
pub open spec fn holds_base2<V, Q: BaseUnit<V>>(v: Seq<Vec<V>>, q: Seq<Vec<Q>>) -> bool {
    &&& v.len() == q.len()
    &&& forall|i: int| 0 <= i < q.len() ==> (#[trigger] v[i])@ == base_values(q[i]@)
}

/// `v` holds, slice by slice, the base-unit values of the three-axis array of
/// quantities `q`.
pub open spec fn holds_base3<V, Q: BaseUnit<V>>(v: Seq<Vec<Vec<V>>>, q: Seq<Vec<Vec<Q>>>) -> bool {
    &&& v.len() == q.len()
    &&& forall|i: int| 0 <= i < q.len() ==> holds_base2((#[trigger] v[i])@, q[i]@)
}

/// Base-unit values of a vector of quantities.
pub fn to_base_vec<V, Q: BaseUnit<V>>(q: &Vec<Q>) -> (r: Vec<V>)
    ensures
        r@ == base_values(q@),
{
    let mut r: Vec<V> = Vec::new();
    let mut i: usize = 0;
    while i < q.len()
        invariant
            i <= q@.len(),
            r@.len() == i,
            forall|k: int| 0 <= k < i ==> #[trigger] r@[k] == q@[k].base_value(),
        decreases q@.len() - i,
    {
        r.push(q[i].to_base());
        i = i + 1;
    }
    assert(r@ =~= base_values(q@));
    r
}

/// Base-unit values of a matrix of quantities.
pub fn to_base_vec2<V, Q: BaseUnit<V>>(q: &Vec<Vec<Q>>) -> (r: Vec<Vec<V>>)
    ensures
        holds_base2(r@, q@),
{
    let mut r: Vec<Vec<V>> = Vec::new();
    let mut i: usize = 0;
    while i < q.len()
        invariant
            i <= q@.len(),
            r@.len() == i,
            forall|k: int| 0 <= k < i ==> (#[trigger] r@[k])@ == base_values(q@[k]@),
        decreases q@.len() - i,
    {
        r.push(to_base_vec(&q[i]));
        i = i + 1;
    }
    r
}

/// Base-unit values of a three-axis array of quantities.
pub fn to_base_vec3<V, Q: BaseUnit<V>>(q: &Vec<Vec<Vec<Q>>>) -> (r: Vec<Vec<Vec<V>>>)
    ensures
        holds_base3(r@, q@),
{
    let mut r: Vec<Vec<Vec<V>>> = Vec::new();
    let mut i: usize = 0;
    while i < q.len()
        invariant
            i <= q@.len(),
            r@.len() == i,
            forall|k: int| 0 <= k < i ==> holds_base2((#[trigger] r@[k])@, q@[k]@),
        decreases q@.len() - i,
    {
        r.push(to_base_vec2(&q[i]));
        i = i + 1;
    }
    r
}

/// Quantities of type `Q` whose base-unit values are `v`.
pub open spec fn from_base_values<V, Q: BaseUnit<V>>(v: Seq<V>) -> Seq<Q> {
    v.map_values(|x: V| Q::from_base_value(x))
}

/// `r` is the vector result `inner` of the unit-free interpolator, converted to
/// quantities of type `Q`.
pub open spec fn converted_vec<V, Q: BaseUnit<V>>(
    inner: Result<Vec<V>, InterpolateError>,
    r: Result<Vec<Q>, InterpolateError>,
) -> bool {
    match inner {
        Ok(a) => r matches Ok(b) && b@ == from_base_values::<V, Q>(a@),
        Err(e) => r == Err::<Vec<Q>, InterpolateError>(e),
    }
}

/// Quantities of type `Q` whose base-unit values are the elements of `v`.
fn from_base_vec<V: Copy, Q: BaseUnit<V>>(v: &Vec<V>) -> (r: Vec<Q>)
    ensures
        r@ == from_base_values::<V, Q>(v@),
{
    let mut r: Vec<Q> = Vec::new();
    let mut i: usize = 0;
    while i < v.len()
        invariant
            i <= v@.len(),
            r@.len() == i,
            forall|k: int| 0 <= k < i ==> #[trigger] r@[k] == Q::from_base_value(v@[k]),
        decreases v@.len() - i,
    {
        r.push(Q::from_base(v[i]));
        i = i + 1;
    }
    assert(r@ =~= from_base_values::<V, Q>(v@));
    r
}

/// Base-unit values of a slice of quantities.
fn to_base_slice<V, Q: BaseUnit<V>>(q: &[Q]) -> (r: Vec<V>)
    ensures
        r@ == base_values(q@),
{
    let mut r: Vec<V> = Vec::new();
    let mut i: usize = 0;
    while i < q.len()
        invariant
            i <= q@.len(),
            r@.len() == i,
            forall|k: int| 0 <= k < i ==> #[trigger] r@[k] == q@[k].base_value(),
        decreases q@.len() - i,
    {
        r.push(q[i].to_base());
        i = i + 1;
    }
    assert(r@ =~= base_values(q@));
    r
}

/// Base-unit points of a batch of 1-D quantity points.
pub open spec fn base_points1<V, Qx: BaseUnit<V>>(points: Seq<Qx>) -> Seq<Seq<V>> {
    points.map_values(|p: Qx| seq![p.base_value()])
}

/// Base-unit points of a batch of 2-D quantity points.
pub open spec fn base_points2<V, Qx: BaseUnit<V>, Qy: BaseUnit<V>>(points: Seq<(Qx, Qy)>) -> Seq<Seq<V>> {
    points.map_values(|p: (Qx, Qy)| seq![p.0.base_value(), p.1.base_value()])
}

/// Base-unit points of a batch of 3-D quantity points.
pub open spec fn base_points3<V, Qx: BaseUnit<V>, Qy: BaseUnit<V>, Qz: BaseUnit<V>>(
    points: Seq<(Qx, Qy, Qz)>,
) -> Seq<Seq<V>> {
    points.map_values(|p: (Qx, Qy, Qz)| seq![p.0.base_value(), p.1.base_value(), p.2.base_value()])
}

/// Base-unit points of a batch of 1-D quantity points.
fn to_base_points1<V, Qx: BaseUnit<V>>(points: &[Qx]) -> (r: Vec<[V; 1]>)
    ensures
        r@.len() == points@.len(),
        views(r@) == base_points1(points@),
{
    let mut r: Vec<[V; 1]> = Vec::new();
    let mut i: usize = 0;
    while i < points.len()
        invariant
            i <= points@.len(),
            r@.len() == i,
            forall|k: int| 0 <= k < i ==> (#[trigger] r@[k])@ == seq![points@[k].base_value()],
        decreases points@.len() - i,
    {
        let p = [points[i].to_base()];
        assert(p@ =~= seq![points@[i as int].base_value()]);
        r.push(p);
        i = i + 1;
    }
    assert(views(r@) =~= base_points1(points@));
    r
}

/// Base-unit points of a batch of 2-D quantity points.
fn to_base_points2<V, Qx: BaseUnit<V>, Qy: BaseUnit<V>>(points: &[(Qx, Qy)]) -> (r: Vec<[V; 2]>)
    ensures
        r@.len() == points@.len(),
        views(r@) == base_points2(points@),
{
    let mut r: Vec<[V; 2]> = Vec::new();
    let mut i: usize = 0;
    while i < points.len()
        invariant
            i <= points@.len(),
            r@.len() == i,
            forall|k: int|
                0 <= k < i ==> (#[trigger] r@[k])@ == seq![points@[k].0.base_value(), points@[k].1.base_value()],
        decreases points@.len() - i,
    {
        let p = [points[i].0.to_base(), points[i].1.to_base()];
        assert(p@ =~= seq![points@[i as int].0.base_value(), points@[i as int].1.base_value()]);
        r.push(p);
        i = i + 1;
    }
    assert(views(r@) =~= base_points2(points@));
    r
}

/// Base-unit points of a batch of 3-D quantity points.
fn to_base_points3<V, Qx: BaseUnit<V>, Qy: BaseUnit<V>, Qz: BaseUnit<V>>(points: &[(Qx, Qy, Qz)]) -> (r: Vec<
    [V; 3],
>)
    ensures
        r@.len() == points@.len(),
        views(r@) == base_points3(points@),
{
    let mut r: Vec<[V; 3]> = Vec::new();
    let mut i: usize = 0;
    while i < points.len()
        invariant
            i <= points@.len(),
            r@.len() == i,
            forall|k: int|
                0 <= k < i ==> (#[trigger] r@[k])@ == seq![
                    points@[k].0.base_value(),
                    points@[k].1.base_value(),
                    points@[k].2.base_value(),
                ],
        decreases points@.len() - i,
    {
        let p = [points[i].0.to_base(), points[i].1.to_base(), points[i].2.to_base()];
        assert(p@ =~= seq![
            points@[i as int].0.base_value(),
            points@[i as int].1.base_value(),
            points@[i as int].2.base_value(),
        ]);
        r.push(p);
        i = i + 1;
    }
    assert(views(r@) =~= base_points3(points@));
    r
}

/// 0-D interpolator over a quantity: a constant value of unit `Q`, stored as `V`.
#[derive(Debug, PartialEq)]
pub struct UomInterp0D<Q, V> {
    /// The unit-free constant interpolator inside.
    pub inner: Interp0D<V>,
    /// Marker for the unit type.
    pub unit: PhantomData<Q>,
}

impl<Q: BaseUnit<V>, V: Copy> UomInterp0D<Q, V> {
    /// Construct a constant-value interpolator.
    pub fn new(value: Q) -> (r: Self)
        ensures
            r.inner.0 == value.base_value(),
    {
        UomInterp0D { inner: Interp0D::new(value.to_base()), unit: PhantomData }
    }

    /// The contained value.
    pub fn interpolate(&self) -> (r: Q)
        ensures
            r == Q::from_base_value(self.inner.0),
    {
        Q::from_base(self.inner.0)
    }
}

/// 1-D interpolator over quantities: coordinates of units `Qx`, values of unit `Qv`,
/// all stored as `V`.
#[derive(Debug, PartialEq)]
pub struct UomInterp1DBase<V, Qx, Qv, S> {
    /// The unit-free interpolator inside.
    pub inner: Interp1DBase<V, S>,
    /// Marker for the unit types.
    pub units: PhantomData<(Qx, Qv)>,
}

/// 1-D interpolator over quantities (owned data).
pub type UomInterp1D<Qx, Qv, V, S> = UomInterp1DBase<V, Qx, Qv, S>;

impl<
    V: PartialOrd + Copy + Add<Output = V> + Sub<Output = V> + Rem<Output = V>,
    Qx: BaseUnit<V>,
    Qv: BaseUnit<V>,
    S: Strategy<V, Vec<V>, 1>,
> UomInterp1DBase<V, Qx, Qv, S> {
    /// Construct an interpolator over quantity grids and values, converting them to
    /// base units.
    pub fn new(x: Vec<Qx>, f_x: Vec<Qv>, strategy: S, extrapolate: Extrapolate<V>) -> (r: Result<Self, ValidateError>)
        ensures
            r matches Ok(it) ==> (it.inner.data.axis(0) == base_values(x@) && it.inner.data.values@ == base_values(f_x@)) && it.inner.ready() && it.inner.extrapolate == extrapolate
                && it.inner.strategy == strategy.initialized(it.inner.data).0,
            obeys_order::<V>() ==> exists|d: InterpData1DBase<V>|
                #![trigger construction_outcome(d, strategy, extrapolate)]
                (d.axis(0) == base_values(x@) && d.values@ == base_values(f_x@)) && match r {
                    Ok(it) => it.inner.data == d && construction_outcome(d, strategy, extrapolate) is Ok,
                    Err(e) => construction_outcome(d, strategy, extrapolate) == Err::<(), ValidateError>(e),
                },
    {
        let x_base = to_base_vec(&x);
        let f_x_base = to_base_vec(&f_x);
        let ghost d = InterpData1DBase::<V>::from_parts(x_base, f_x_base);
        assert((d.axis(0) == base_values(x@) && d.values@ == base_values(f_x@)));
        match Interp1DBase::new(x_base, f_x_base, strategy, extrapolate) {
            Ok(inner) => Ok(UomInterp1DBase { inner, units: PhantomData }),
            Err(e) => Err(e),
        }
    }

    /// Interpolate at a quantity point, returning a quantity of unit `Qv`: the
    /// unit-free interpolator's outcome at the point's base-unit values, converted.
    pub fn interpolate(&self, x: Qx) -> (r: Result<Qv, InterpolateError>)
        requires
            self.inner.ready(),
            self.inner.extrapolate is Wrap ==> self.inner.data.wrap_ready(seq![x.base_value()]),
        ensures
            ordered::<V>() && self.inner.data.valid() ==> exists|inner: Result<V, InterpolateError>|
                interpolate_outcome(
                    self.inner.data,
                    self.inner.strategy,
                    self.inner.extrapolate,
                    seq![x.base_value()],
                    inner,
                ) && r == map_base::<V, Qv>(inner),
    {
        let point = [x.to_base()];
        assert(point@ =~= seq![x.base_value()]);
        let inner = self.inner.interpolate(&point);
        map_result(inner)
    }

    /// Interpolate without the bounds check and extrapolation handling, for points the
    /// caller knows the strategy evaluates.
    pub fn interpolate_fast(&self, x: Qx) -> (r: Qv)
        requires
            self.inner.ready(),
            ordered::<V>(),
            self.inner.data.valid(),
            self.inner.strategy.interpolation(self.inner.data, seq![x.base_value()]) is Ok,
        ensures
            self.inner.strategy.interpolation(self.inner.data, seq![x.base_value()]) matches Ok(v) && r == Qv::from_base_value(v),
    {
        let point = [x.to_base()];
        assert(point@ =~= seq![x.base_value()]);
        Qv::from_base(self.inner.interpolate_fast(&point))
    }

    /// Interpolate at each of `points`, resolving the extrapolation setting once for the
    /// whole batch: the unit-free interpolator's batch outcome at the points' base-unit
    /// values, converted.
    pub fn batch_interpolate(&self, points: &[Qx]) -> (r: Result<Vec<Qv>, InterpolateError>)
        requires
            self.inner.ready(),
            self.inner.extrapolate is Wrap ==> batch_wrap_ready(self.inner.data, base_points1(points@)),
        ensures
            r matches Ok(v) ==> v@.len() == points@.len(),
            ordered::<V>() && self.inner.data.valid() ==> exists|raw: Seq<[V; 1]>, inner: Result<Vec<V>, InterpolateError>|
                #![trigger views(raw), converted_vec::<V, Qv>(inner, r)]
                views(raw) == base_points1(points@) && batch_vec_outcome(
                    self.inner.data,
                    self.inner.strategy,
                    self.inner.extrapolate,
                    raw,
                    inner,
                ) && converted_vec::<V, Qv>(inner, r),
    {
        let raw = to_base_points1(points);
        let inner = self.inner.batch_interpolate(raw.as_slice());
        let ghost outcome = inner;
        let r = match inner {
            Ok(v) => Ok(from_base_vec(&v)),
            Err(e) => Err(e),
        };
        assert(converted_vec::<V, Qv>(outcome, r));
        r
    }

    /// Interpolate at each of `points`, resolving the extrapolation setting once for the
    /// whole batch, and write the quantities into `out`; every slot of `out` is written
    /// back from its base-unit value.
    pub fn batch_interpolate_into(&self, points: &[Qx], out: &mut [Qv]) -> (r: Result<(), InterpolateError>)
        requires
            self.inner.ready(),
            self.inner.extrapolate is Wrap ==> batch_wrap_ready(self.inner.data, base_points1(points@)),
        ensures
            final(out)@.len() == old(out)@.len(),
            old(out)@.len() != points@.len() ==> (r matches Err(
                InterpolateError::OutputLength { expected, found },
            ) && expected == points@.len() && found == old(out)@.len() && final(out)@ == old(out)@),
            old(out)@.len() == points@.len() && ordered::<V>() && self.inner.data.valid() ==> exists|after: Seq<V>|
                #![trigger from_base_values::<V, Qv>(after)]
                batch_into_outcome(
                    self.inner.data,
                    self.inner.strategy,
                    self.inner.extrapolate,
                    base_points1(points@),
                    r,
                    base_values(old(out)@),
                    after,
                ) && final(out)@ == from_base_values::<V, Qv>(after),
    {
        if out.len() != points.len() {
            return Err(InterpolateError::OutputLength { expected: points.len(), found: out.len() });
        }
        let raw = to_base_points1(points);
        let mut raw_out = to_base_slice(out);
        let r = self.inner.batch_interpolate_into(raw.as_slice(), raw_out.as_mut_slice());
        let ghost after = raw_out@;
        let mut i: usize = 0;
        while i < out.len()
            invariant
                i <= out@.len(),
                out@.len() == raw_out@.len(),
                raw_out@ == after,
                forall|k: int| 0 <= k < i ==> #[trigger] out@[k] == Qv::from_base_value(after[k]),
            decreases out@.len() - i,
        {
            out[i] = Qv::from_base(raw_out[i]);
            i = i + 1;
        }
        assert(out@ =~= from_base_values::<V, Qv>(after));
        r
    }

    /// Batched [`Self::interpolate_fast`].
    pub fn batch_interpolate_fast(&self, points: &[Qx]) -> (r: Vec<Qv>)
        requires
            self.inner.ready(),
            ordered::<V>(),
            self.inner.data.valid(),
            forall|i: int|
                0 <= i < points@.len() ==> self.inner.strategy.interpolation(self.inner.data, #[trigger] base_points1(points@)[i]) is Ok,
        ensures
            r@.len() == points@.len(),
            forall|i: int|
                0 <= i < points@.len() ==> (self.inner.strategy.interpolation(self.inner.data, #[trigger] base_points1(points@)[i]) matches Ok(v)
                    && r@[i] == Qv::from_base_value(v)),
    {
        let raw = to_base_points1(points);
        assert forall|i: int| 0 <= i < raw@.len() implies self.inner.strategy.interpolation(self.inner.data, (#[trigger] raw@[i])@) is Ok by {
            assert(views(raw@)[i] == raw@[i]@);
        }
        let v = self.inner.batch_interpolate_fast(raw.as_slice());
        let r = from_base_vec(&v);
        assert forall|i: int| 0 <= i < points@.len() implies (self.inner.strategy.interpolation(self.inner.data, #[trigger] base_points1(points@)[i]) matches Ok(w)
                    && r@[i] == Qv::from_base_value(w)) by {
            assert(views(raw@)[i] == raw@[i]@);
        }
        r
    }

    /// Batched [`Self::interpolate_fast`], writing into `out`.
    pub fn batch_interpolate_fast_into(&self, points: &[Qx], out: &mut [Qv])
        requires
            self.inner.ready(),
            ordered::<V>(),
            self.inner.data.valid(),
            old(out)@.len() == points@.len(),
            forall|i: int|
                0 <= i < points@.len() ==> self.inner.strategy.interpolation(self.inner.data, #[trigger] base_points1(points@)[i]) is Ok,
        ensures
            final(out)@.len() == points@.len(),
            forall|i: int|
                0 <= i < points@.len() ==> (self.inner.strategy.interpolation(self.inner.data, #[trigger] base_points1(points@)[i]) matches Ok(v)
                    && final(out)@[i] == Qv::from_base_value(v)),
    {
        let values = self.batch_interpolate_fast(points);
        let mut i: usize = 0;
        while i < out.len()
            invariant
                i <= out@.len(),
                out@.len() == values@.len(),
                forall|k: int| 0 <= k < i ==> #[trigger] out@[k] == values@[k],
            decreases out@.len() - i,
        {
            out[i] = values[i];
            i = i + 1;
        }
        assert(out@ =~= values@);
    }

    /// Interpolator dimensionality: `1`.
    pub fn ndim(&self) -> (r: usize)
        ensures
            r == 1,
    {
        1
    }

    /// Validate the extrapolation setting, the data and the strategy, in that order.
    pub fn validate(&self) -> (r: Result<(), ValidateError>)
        ensures
            extrapolate_validation(self.inner.extrapolate, self.inner.strategy.extrapolates()) is Err ==> r == self.inner.validation(),
            obeys_order::<V>() ==> r == self.inner.validation(),
            r is Ok ==> self.inner.ready(),
    {
        self.inner.validate()
    }

    /// Check that `extrapolate` suits the current strategy.
    pub fn validate_extrapolate(&self, extrapolate: &Extrapolate<V>) -> (r: Result<(), ValidateError>)
        ensures
            r == extrapolate_validation(*extrapolate, self.inner.strategy.extrapolates()),
    {
        self.inner.validate_extrapolate(extrapolate)
    }

    /// Set the extrapolation setting, refusing one the strategy does not allow.
    pub fn set_extrapolate(&mut self, extrapolate: Extrapolate<V>) -> (r: Result<(), ValidateError>)
        ensures
            r == extrapolate_validation(extrapolate, old(self).inner.strategy.extrapolates()),
            final(self).inner.data == old(self).inner.data,
            final(self).inner.strategy == old(self).inner.strategy,
            final(self).inner.extrapolate == (if r is Ok { extrapolate } else { old(self).inner.extrapolate }),
    {
        self.inner.set_extrapolate(extrapolate)
    }

    /// Replace the strategy, then check the extrapolation setting and the new strategy
    /// against the data and initialize it, as the unit-free interpolator does.
    pub fn set_strategy(&mut self, strategy: S) -> (r: Result<(), ValidateError>)
        ensures
            final(self).inner.data == old(self).inner.data,
            final(self).inner.extrapolate == old(self).inner.extrapolate,
            extrapolate_validation(old(self).inner.extrapolate, strategy.extrapolates()) is Err ==> r
                == extrapolate_validation(old(self).inner.extrapolate, strategy.extrapolates())
                && final(self).inner.strategy == strategy,
            extrapolate_validation(old(self).inner.extrapolate, strategy.extrapolates()) is Ok && strategy.validation(old(self).inner.data) is Err ==> r
                == strategy.validation(old(self).inner.data) && final(self).inner.strategy == strategy,
            extrapolate_validation(old(self).inner.extrapolate, strategy.extrapolates()) is Ok && strategy.validation(old(self).inner.data) is Ok ==> (
                final(self).inner.strategy, r) == strategy.initialized(old(self).inner.data),
            r is Ok && old(self).inner.data.shaped() ==> final(self).inner.ready(),
    {
        self.inner.set_strategy(strategy)
    }

    /// Re-run the strategy's validation against the current data.
    pub fn validate_strategy(&self) -> (r: Result<(), ValidateError>)
        ensures
            r == self.inner.strategy.validation(self.inner.data),
    {
        self.inner.validate_strategy()
    }

    /// Re-run the strategy's initialization against the current data.
    pub fn init_strategy(&mut self) -> (r: Result<(), ValidateError>)
        ensures
            final(self).inner.data == old(self).inner.data,
            final(self).inner.extrapolate == old(self).inner.extrapolate,
            (final(self).inner.strategy, r) == old(self).inner.strategy.initialized(old(self).inner.data),
    {
        self.inner.init_strategy()
    }

    /// View the interpolator: a borrow of the same interpolator.
    pub fn view(&self) -> (r: &Self)
        ensures
            *r == *self,
    {
        self
    }

    /// Turn the interpolator into its owned form; its data is owned already.
    pub fn into_owned(self) -> (r: Self)
        ensures
            r == self,
    {
        self
    }
}

/// 2-D interpolator over quantities: coordinates of units `Qx`, `Qy`, values of unit `Qv`,
/// all stored as `V`.
#[derive(Debug, PartialEq)]
pub struct UomInterp2DBase<V, Qx, Qy, Qv, S> {
    /// The unit-free interpolator inside.
    pub inner: Interp2DBase<V, S>,
    /// Marker for the unit types.
    pub units: PhantomData<(Qx, Qy, Qv)>,
}

/// 2-D interpolator over quantities (owned data).
pub type UomInterp2D<Qx, Qy, Qv, V, S> = UomInterp2DBase<V, Qx, Qy, Qv, S>;

impl<
    V: PartialOrd + Copy + Add<Output = V> + Sub<Output = V> + Rem<Output = V>,
    Qx: BaseUnit<V>,
    Qy: BaseUnit<V>,
    Qv: BaseUnit<V>,
    S: Strategy<V, Vec<Vec<V>>, 2>,
> UomInterp2DBase<V, Qx, Qy, Qv, S> {
    /// Construct an interpolator over quantity grids and values, converting them to
    /// base units.
    pub fn new(x: Vec<Qx>, y: Vec<Qy>, f_xy: Vec<Vec<Qv>>, strategy: S, extrapolate: Extrapolate<V>) -> (r: Result<Self, ValidateError>)
        ensures
            r matches Ok(it) ==> (it.inner.data.axis(0) == base_values(x@) && it.inner.data.axis(1) == base_values(y@) && holds_base2(it.inner.data.values@, f_xy@)) && it.inner.ready() && it.inner.extrapolate == extrapolate
                && it.inner.strategy == strategy.initialized(it.inner.data).0,
            obeys_order::<V>() ==> exists|d: InterpData2DBase<V>|
                #![trigger construction_outcome(d, strategy, extrapolate)]
                (d.axis(0) == base_values(x@) && d.axis(1) == base_values(y@) && holds_base2(d.values@, f_xy@)) && match r {
                    Ok(it) => it.inner.data == d && construction_outcome(d, strategy, extrapolate) is Ok,
                    Err(e) => construction_outcome(d, strategy, extrapolate) == Err::<(), ValidateError>(e),
                },
    {
        let x_base = to_base_vec(&x);
        let y_base = to_base_vec(&y);
        let f_xy_base = to_base_vec2(&f_xy);
        let ghost d = InterpData2DBase::<V>::from_parts(x_base, y_base, f_xy_base);
        assert((d.axis(0) == base_values(x@) && d.axis(1) == base_values(y@) && holds_base2(d.values@, f_xy@)));
        match Interp2DBase::new(x_base, y_base, f_xy_base, strategy, extrapolate) {
            Ok(inner) => Ok(UomInterp2DBase { inner, units: PhantomData }),
            Err(e) => Err(e),
        }
    }

    /// Interpolate at a quantity point, returning a quantity of unit `Qv`: the
    /// unit-free interpolator's outcome at the point's base-unit values, converted.
    pub fn interpolate(&self, x: Qx, y: Qy) -> (r: Result<Qv, InterpolateError>)
        requires
            self.inner.ready(),
            self.inner.extrapolate is Wrap ==> self.inner.data.wrap_ready(seq![x.base_value(), y.base_value()]),
        ensures
            ordered::<V>() && self.inner.data.valid() ==> exists|inner: Result<V, InterpolateError>|
                interpolate_outcome(
                    self.inner.data,
                    self.inner.strategy,
                    self.inner.extrapolate,
                    seq![x.base_value(), y.base_value()],
                    inner,
                ) && r == map_base::<V, Qv>(inner),
    {
        let point = [x.to_base(), y.to_base()];
        assert(point@ =~= seq![x.base_value(), y.base_value()]);
        let inner = self.inner.interpolate(&point);
        map_result(inner)
    }

    /// Interpolate without the bounds check and extrapolation handling, for points the
    /// caller knows the strategy evaluates.
    pub fn interpolate_fast(&self, x: Qx, y: Qy) -> (r: Qv)
        requires
            self.inner.ready(),
            ordered::<V>(),
            self.inner.data.valid(),
            self.inner.strategy.interpolation(self.inner.data, seq![x.base_value(), y.base_value()]) is Ok,
        ensures
            self.inner.strategy.interpolation(self.inner.data, seq![x.base_value(), y.base_value()]) matches Ok(v) && r == Qv::from_base_value(v),
    {
        let point = [x.to_base(), y.to_base()];
        assert(point@ =~= seq![x.base_value(), y.base_value()]);
        Qv::from_base(self.inner.interpolate_fast(&point))
    }

    /// Interpolate at each of `points`, resolving the extrapolation setting once for the
    /// whole batch: the unit-free interpolator's batch outcome at the points' base-unit
    /// values, converted.
    pub fn batch_interpolate(&self, points: &[(Qx, Qy)]) -> (r: Result<Vec<Qv>, InterpolateError>)
        requires
            self.inner.ready(),
            self.inner.extrapolate is Wrap ==> batch_wrap_ready(self.inner.data, base_points2(points@)),
        ensures
            r matches Ok(v) ==> v@.len() == points@.len(),
            ordered::<V>() && self.inner.data.valid() ==> exists|raw: Seq<[V; 2]>, inner: Result<Vec<V>, InterpolateError>|
                #![trigger views(raw), converted_vec::<V, Qv>(inner, r)]
                views(raw) == base_points2(points@) && batch_vec_outcome(
                    self.inner.data,
                    self.inner.strategy,
                    self.inner.extrapolate,
                    raw,
                    inner,
                ) && converted_vec::<V, Qv>(inner, r),
    {
        let raw = to_base_points2(points);
        let inner = self.inner.batch_interpolate(raw.as_slice());
        let ghost outcome = inner;
        let r = match inner {
            Ok(v) => Ok(from_base_vec(&v)),
            Err(e) => Err(e),
        };
        assert(converted_vec::<V, Qv>(outcome, r));
        r
    }

    /// Interpolate at each of `points`, resolving the extrapolation setting once for the
    /// whole batch, and write the quantities into `out`; every slot of `out` is written
    /// back from its base-unit value.
    pub fn batch_interpolate_into(&self, points: &[(Qx, Qy)], out: &mut [Qv]) -> (r: Result<(), InterpolateError>)
        requires
            self.inner.ready(),
            self.inner.extrapolate is Wrap ==> batch_wrap_ready(self.inner.data, base_points2(points@)),
        ensures
            final(out)@.len() == old(out)@.len(),
            old(out)@.len() != points@.len() ==> (r matches Err(
                InterpolateError::OutputLength { expected, found },
            ) && expected == points@.len() && found == old(out)@.len() && final(out)@ == old(out)@),
            old(out)@.len() == points@.len() && ordered::<V>() && self.inner.data.valid() ==> exists|after: Seq<V>|
                #![trigger from_base_values::<V, Qv>(after)]
                batch_into_outcome(
                    self.inner.data,
                    self.inner.strategy,
                    self.inner.extrapolate,
                    base_points2(points@),
                    r,
                    base_values(old(out)@),
                    after,
                ) && final(out)@ == from_base_values::<V, Qv>(after),
    {
        if out.len() != points.len() {
            return Err(InterpolateError::OutputLength { expected: points.len(), found: out.len() });
        }
        let raw = to_base_points2(points);
        let mut raw_out = to_base_slice(out);
        let r = self.inner.batch_interpolate_into(raw.as_slice(), raw_out.as_mut_slice());
        let ghost after = raw_out@;
        let mut i: usize = 0;
        while i < out.len()
            invariant
                i <= out@.len(),
                out@.len() == raw_out@.len(),
                raw_out@ == after,
                forall|k: int| 0 <= k < i ==> #[trigger] out@[k] == Qv::from_base_value(after[k]),
            decreases out@.len() - i,
        {
            out[i] = Qv::from_base(raw_out[i]);
            i = i + 1;
        }
        assert(out@ =~= from_base_values::<V, Qv>(after));
        r
    }

    /// Batched [`Self::interpolate_fast`].
    pub fn batch_interpolate_fast(&self, points: &[(Qx, Qy)]) -> (r: Vec<Qv>)
        requires
            self.inner.ready(),
            ordered::<V>(),
            self.inner.data.valid(),
            forall|i: int|
                0 <= i < points@.len() ==> self.inner.strategy.interpolation(self.inner.data, #[trigger] base_points2(points@)[i]) is Ok,
        ensures
            r@.len() == points@.len(),
            forall|i: int|
                0 <= i < points@.len() ==> (self.inner.strategy.interpolation(self.inner.data, #[trigger] base_points2(points@)[i]) matches Ok(v)
                    && r@[i] == Qv::from_base_value(v)),
    {
        let raw = to_base_points2(points);
        assert forall|i: int| 0 <= i < raw@.len() implies self.inner.strategy.interpolation(self.inner.data, (#[trigger] raw@[i])@) is Ok by {
            assert(views(raw@)[i] == raw@[i]@);
        }
        let v = self.inner.batch_interpolate_fast(raw.as_slice());
        let r = from_base_vec(&v);
        assert forall|i: int| 0 <= i < points@.len() implies (self.inner.strategy.interpolation(self.inner.data, #[trigger] base_points2(points@)[i]) matches Ok(w)
                    && r@[i] == Qv::from_base_value(w)) by {
            assert(views(raw@)[i] == raw@[i]@);
        }
        r
    }

    /// Batched [`Self::interpolate_fast`], writing into `out`.
    pub fn batch_interpolate_fast_into(&self, points: &[(Qx, Qy)], out: &mut [Qv])
        requires
            self.inner.ready(),
            ordered::<V>(),
            self.inner.data.valid(),
            old(out)@.len() == points@.len(),
            forall|i: int|
                0 <= i < points@.len() ==> self.inner.strategy.interpolation(self.inner.data, #[trigger] base_points2(points@)[i]) is Ok,
        ensures
            final(out)@.len() == points@.len(),
            forall|i: int|
                0 <= i < points@.len() ==> (self.inner.strategy.interpolation(self.inner.data, #[trigger] base_points2(points@)[i]) matches Ok(v)
                    && final(out)@[i] == Qv::from_base_value(v)),
    {
        let values = self.batch_interpolate_fast(points);
        let mut i: usize = 0;
        while i < out.len()
            invariant
                i <= out@.len(),
                out@.len() == values@.len(),
                forall|k: int| 0 <= k < i ==> #[trigger] out@[k] == values@[k],
            decreases out@.len() - i,
        {
            out[i] = values[i];
            i = i + 1;
        }
        assert(out@ =~= values@);
    }

    /// Interpolator dimensionality: `2`.
    pub fn ndim(&self) -> (r: usize)
        ensures
            r == 2,
    {
        2
    }

    /// Validate the extrapolation setting, the data and the strategy, in that order.
    pub fn validate(&self) -> (r: Result<(), ValidateError>)
        ensures
            extrapolate_validation(self.inner.extrapolate, self.inner.strategy.extrapolates()) is Err ==> r == self.inner.validation(),
            obeys_order::<V>() ==> r == self.inner.validation(),
            r is Ok ==> self.inner.ready(),
    {
        self.inner.validate()
    }

    /// Check that `extrapolate` suits the current strategy.
    pub fn validate_extrapolate(&self, extrapolate: &Extrapolate<V>) -> (r: Result<(), ValidateError>)
        ensures
            r == extrapolate_validation(*extrapolate, self.inner.strategy.extrapolates()),
    {
        self.inner.validate_extrapolate(extrapolate)
    }

    /// Set the extrapolation setting, refusing one the strategy does not allow.
    pub fn set_extrapolate(&mut self, extrapolate: Extrapolate<V>) -> (r: Result<(), ValidateError>)
        ensures
            r == extrapolate_validation(extrapolate, old(self).inner.strategy.extrapolates()),
            final(self).inner.data == old(self).inner.data,
            final(self).inner.strategy == old(self).inner.strategy,
            final(self).inner.extrapolate == (if r is Ok { extrapolate } else { old(self).inner.extrapolate }),
    {
        self.inner.set_extrapolate(extrapolate)
    }

    /// Replace the strategy, then check the extrapolation setting and the new strategy
    /// against the data and initialize it, as the unit-free interpolator does.
    pub fn set_strategy(&mut self, strategy: S) -> (r: Result<(), ValidateError>)
        ensures
            final(self).inner.data == old(self).inner.data,
            final(self).inner.extrapolate == old(self).inner.extrapolate,
            extrapolate_validation(old(self).inner.extrapolate, strategy.extrapolates()) is Err ==> r
                == extrapolate_validation(old(self).inner.extrapolate, strategy.extrapolates())
                && final(self).inner.strategy == strategy,
            extrapolate_validation(old(self).inner.extrapolate, strategy.extrapolates()) is Ok && strategy.validation(old(self).inner.data) is Err ==> r
                == strategy.validation(old(self).inner.data) && final(self).inner.strategy == strategy,
            extrapolate_validation(old(self).inner.extrapolate, strategy.extrapolates()) is Ok && strategy.validation(old(self).inner.data) is Ok ==> (
                final(self).inner.strategy, r) == strategy.initialized(old(self).inner.data),
            r is Ok && old(self).inner.data.shaped() ==> final(self).inner.ready(),
    {
        self.inner.set_strategy(strategy)
    }

    /// Re-run the strategy's validation against the current data.
    pub fn validate_strategy(&self) -> (r: Result<(), ValidateError>)
        ensures
            r == self.inner.strategy.validation(self.inner.data),
    {
        self.inner.validate_strategy()
    }

    /// Re-run the strategy's initialization against the current data.
    pub fn init_strategy(&mut self) -> (r: Result<(), ValidateError>)
        ensures
            final(self).inner.data == old(self).inner.data,
            final(self).inner.extrapolate == old(self).inner.extrapolate,
            (final(self).inner.strategy, r) == old(self).inner.strategy.initialized(old(self).inner.data),
    {
        self.inner.init_strategy()
    }

    /// View the interpolator: a borrow of the same interpolator.
    pub fn view(&self) -> (r: &Self)
        ensures
            *r == *self,
    {
        self
    }

    /// Turn the interpolator into its owned form; its data is owned already.
    pub fn into_owned(self) -> (r: Self)
        ensures
            r == self,
    {
        self
    }
}

/// 3-D interpolator over quantities: coordinates of units `Qx`, `Qy`, `Qz`, values of unit `Qv`,
/// all stored as `V`.
#[derive(Debug, PartialEq)]
pub struct UomInterp3DBase<V, Qx, Qy, Qz, Qv, S> {
    /// The unit-free interpolator inside.
    pub inner: Interp3DBase<V, S>,
    /// Marker for the unit types.
    pub units: PhantomData<(Qx, Qy, Qz, Qv)>,
}

/// 3-D interpolator over quantities (owned data).
pub type UomInterp3D<Qx, Qy, Qz, Qv, V, S> = UomInterp3DBase<V, Qx, Qy, Qz, Qv, S>;

impl<
    V: PartialOrd + Copy + Add<Output = V> + Sub<Output = V> + Rem<Output = V>,
    Qx: BaseUnit<V>,
    Qy: BaseUnit<V>,
    Qz: BaseUnit<V>,
    Qv: BaseUnit<V>,
    S: Strategy<V, Vec<Vec<Vec<V>>>, 3>,
> UomInterp3DBase<V, Qx, Qy, Qz, Qv, S> {
    /// Construct an interpolator over quantity grids and values, converting them to
    /// base units.
    pub fn new(x: Vec<Qx>, y: Vec<Qy>, z: Vec<Qz>, f_xyz: Vec<Vec<Vec<Qv>>>, strategy: S, extrapolate: Extrapolate<V>) -> (r: Result<Self, ValidateError>)
        ensures
            r matches Ok(it) ==> (it.inner.data.axis(0) == base_values(x@) && it.inner.data.axis(1) == base_values(y@) && it.inner.data.axis(2) == base_values(z@) && holds_base3(it.inner.data.values@, f_xyz@)) && it.inner.ready() && it.inner.extrapolate == extrapolate
                && it.inner.strategy == strategy.initialized(it.inner.data).0,
            obeys_order::<V>() ==> exists|d: InterpData3DBase<V>|
                #![trigger construction_outcome(d, strategy, extrapolate)]
                (d.axis(0) == base_values(x@) && d.axis(1) == base_values(y@) && d.axis(2) == base_values(z@) && holds_base3(d.values@, f_xyz@)) && match r {
                    Ok(it) => it.inner.data == d && construction_outcome(d, strategy, extrapolate) is Ok,
                    Err(e) => construction_outcome(d, strategy, extrapolate) == Err::<(), ValidateError>(e),
                },
    {
        let x_base = to_base_vec(&x);
        let y_base = to_base_vec(&y);
        let z_base = to_base_vec(&z);
        let f_xyz_base = to_base_vec3(&f_xyz);
        let ghost d = InterpData3DBase::<V>::from_parts(x_base, y_base, z_base, f_xyz_base);
        assert((d.axis(0) == base_values(x@) && d.axis(1) == base_values(y@) && d.axis(2) == base_values(z@) && holds_base3(d.values@, f_xyz@)));
        match Interp3DBase::new(x_base, y_base, z_base, f_xyz_base, strategy, extrapolate) {
            Ok(inner) => Ok(UomInterp3DBase { inner, units: PhantomData }),
            Err(e) => Err(e),
        }
    }

    /// Interpolate at a quantity point, returning a quantity of unit `Qv`: the
    /// unit-free interpolator's outcome at the point's base-unit values, converted.
    pub fn interpolate(&self, x: Qx, y: Qy, z: Qz) -> (r: Result<Qv, InterpolateError>)
        requires
            self.inner.ready(),
            self.inner.extrapolate is Wrap ==> self.inner.data.wrap_ready(seq![x.base_value(), y.base_value(), z.base_value()]),
        ensures
            ordered::<V>() && self.inner.data.valid() ==> exists|inner: Result<V, InterpolateError>|
                interpolate_outcome(
                    self.inner.data,
                    self.inner.strategy,
                    self.inner.extrapolate,
                    seq![x.base_value(), y.base_value(), z.base_value()],
                    inner,
                ) && r == map_base::<V, Qv>(inner),
    {
        let point = [x.to_base(), y.to_base(), z.to_base()];
        assert(point@ =~= seq![x.base_value(), y.base_value(), z.base_value()]);
        let inner = self.inner.interpolate(&point);
        map_result(inner)
    }

    /// Interpolate without the bounds check and extrapolation handling, for points the
    /// caller knows the strategy evaluates.
    pub fn interpolate_fast(&self, x: Qx, y: Qy, z: Qz) -> (r: Qv)
        requires
            self.inner.ready(),
            ordered::<V>(),
            self.inner.data.valid(),
            self.inner.strategy.interpolation(self.inner.data, seq![x.base_value(), y.base_value(), z.base_value()]) is Ok,
        ensures
            self.inner.strategy.interpolation(self.inner.data, seq![x.base_value(), y.base_value(), z.base_value()]) matches Ok(v) && r == Qv::from_base_value(v),
    {
        let point = [x.to_base(), y.to_base(), z.to_base()];
        assert(point@ =~= seq![x.base_value(), y.base_value(), z.base_value()]);
        Qv::from_base(self.inner.interpolate_fast(&point))
    }

    /// Interpolate at each of `points`, resolving the extrapolation setting once for the
    /// whole batch: the unit-free interpolator's batch outcome at the points' base-unit
    /// values, converted.
    pub fn batch_interpolate(&self, points: &[(Qx, Qy, Qz)]) -> (r: Result<Vec<Qv>, InterpolateError>)
        requires
            self.inner.ready(),
            self.inner.extrapolate is Wrap ==> batch_wrap_ready(self.inner.data, base_points3(points@)),
        ensures
            r matches Ok(v) ==> v@.len() == points@.len(),
            ordered::<V>() && self.inner.data.valid() ==> exists|raw: Seq<[V; 3]>, inner: Result<Vec<V>, InterpolateError>|
                #![trigger views(raw), converted_vec::<V, Qv>(inner, r)]
                views(raw) == base_points3(points@) && batch_vec_outcome(
                    self.inner.data,
                    self.inner.strategy,
                    self.inner.extrapolate,
                    raw,
                    inner,
                ) && converted_vec::<V, Qv>(inner, r),
    {
        let raw = to_base_points3(points);
        let inner = self.inner.batch_interpolate(raw.as_slice());
        let ghost outcome = inner;
        let r = match inner {
            Ok(v) => Ok(from_base_vec(&v)),
            Err(e) => Err(e),
        };
        assert(converted_vec::<V, Qv>(outcome, r));
        r
    }

    /// Interpolate at each of `points`, resolving the extrapolation setting once for the
    /// whole batch, and write the quantities into `out`; every slot of `out` is written
    /// back from its base-unit value.
    pub fn batch_interpolate_into(&self, points: &[(Qx, Qy, Qz)], out: &mut [Qv]) -> (r: Result<(), InterpolateError>)
        requires
            self.inner.ready(),
            self.inner.extrapolate is Wrap ==> batch_wrap_ready(self.inner.data, base_points3(points@)),
        ensures
            final(out)@.len() == old(out)@.len(),
            old(out)@.len() != points@.len() ==> (r matches Err(
                InterpolateError::OutputLength { expected, found },
            ) && expected == points@.len() && found == old(out)@.len() && final(out)@ == old(out)@),
            old(out)@.len() == points@.len() && ordered::<V>() && self.inner.data.valid() ==> exists|after: Seq<V>|
                #![trigger from_base_values::<V, Qv>(after)]
                batch_into_outcome(
                    self.inner.data,
                    self.inner.strategy,
                    self.inner.extrapolate,
                    base_points3(points@),
                    r,
                    base_values(old(out)@),
                    after,
                ) && final(out)@ == from_base_values::<V, Qv>(after),
    {
        if out.len() != points.len() {
            return Err(InterpolateError::OutputLength { expected: points.len(), found: out.len() });
        }
        let raw = to_base_points3(points);
        let mut raw_out = to_base_slice(out);
        let r = self.inner.batch_interpolate_into(raw.as_slice(), raw_out.as_mut_slice());
        let ghost after = raw_out@;
        let mut i: usize = 0;
        while i < out.len()
            invariant
                i <= out@.len(),
                out@.len() == raw_out@.len(),
                raw_out@ == after,
                forall|k: int| 0 <= k < i ==> #[trigger] out@[k] == Qv::from_base_value(after[k]),
            decreases out@.len() - i,
        {
            out[i] = Qv::from_base(raw_out[i]);
            i = i + 1;
        }
        assert(out@ =~= from_base_values::<V, Qv>(after));
        r
    }

    /// Batched [`Self::interpolate_fast`].
    pub fn batch_interpolate_fast(&self, points: &[(Qx, Qy, Qz)]) -> (r: Vec<Qv>)
        requires
            self.inner.ready(),
            ordered::<V>(),
            self.inner.data.valid(),
            forall|i: int|
                0 <= i < points@.len() ==> self.inner.strategy.interpolation(self.inner.data, #[trigger] base_points3(points@)[i]) is Ok,
        ensures
            r@.len() == points@.len(),
            forall|i: int|
                0 <= i < points@.len() ==> (self.inner.strategy.interpolation(self.inner.data, #[trigger] base_points3(points@)[i]) matches Ok(v)
                    && r@[i] == Qv::from_base_value(v)),
    {
        let raw = to_base_points3(points);
        assert forall|i: int| 0 <= i < raw@.len() implies self.inner.strategy.interpolation(self.inner.data, (#[trigger] raw@[i])@) is Ok by {
            assert(views(raw@)[i] == raw@[i]@);
        }
        let v = self.inner.batch_interpolate_fast(raw.as_slice());
        let r = from_base_vec(&v);
        assert forall|i: int| 0 <= i < points@.len() implies (self.inner.strategy.interpolation(self.inner.data, #[trigger] base_points3(points@)[i]) matches Ok(w)
                    && r@[i] == Qv::from_base_value(w)) by {
            assert(views(raw@)[i] == raw@[i]@);
        }
        r
    }

    /// Batched [`Self::interpolate_fast`], writing into `out`.
    pub fn batch_interpolate_fast_into(&self, points: &[(Qx, Qy, Qz)], out: &mut [Qv])
        requires
            self.inner.ready(),
            ordered::<V>(),
            self.inner.data.valid(),
            old(out)@.len() == points@.len(),
            forall|i: int|
                0 <= i < points@.len() ==> self.inner.strategy.interpolation(self.inner.data, #[trigger] base_points3(points@)[i]) is Ok,
        ensures
            final(out)@.len() == points@.len(),
            forall|i: int|
                0 <= i < points@.len() ==> (self.inner.strategy.interpolation(self.inner.data, #[trigger] base_points3(points@)[i]) matches Ok(v)
                    && final(out)@[i] == Qv::from_base_value(v)),
    {
        let values = self.batch_interpolate_fast(points);
        let mut i: usize = 0;
        while i < out.len()
            invariant
                i <= out@.len(),
                out@.len() == values@.len(),
                forall|k: int| 0 <= k < i ==> #[trigger] out@[k] == values@[k],
            decreases out@.len() - i,
        {
            out[i] = values[i];
            i = i + 1;
        }
        assert(out@ =~= values@);
    }

    /// Interpolator dimensionality: `3`.
    pub fn ndim(&self) -> (r: usize)
        ensures
            r == 3,
    {
        3
    }

    /// Validate the extrapolation setting, the data and the strategy, in that order.
    pub fn validate(&self) -> (r: Result<(), ValidateError>)
        ensures
            extrapolate_validation(self.inner.extrapolate, self.inner.strategy.extrapolates()) is Err ==> r == self.inner.validation(),
            obeys_order::<V>() ==> r == self.inner.validation(),
            r is Ok ==> self.inner.ready(),
    {
        self.inner.validate()
    }

    /// Check that `extrapolate` suits the current strategy.
    pub fn validate_extrapolate(&self, extrapolate: &Extrapolate<V>) -> (r: Result<(), ValidateError>)
        ensures
            r == extrapolate_validation(*extrapolate, self.inner.strategy.extrapolates()),
    {
        self.inner.validate_extrapolate(extrapolate)
    }

    /// Set the extrapolation setting, refusing one the strategy does not allow.
    pub fn set_extrapolate(&mut self, extrapolate: Extrapolate<V>) -> (r: Result<(), ValidateError>)
        ensures
            r == extrapolate_validation(extrapolate, old(self).inner.strategy.extrapolates()),
            final(self).inner.data == old(self).inner.data,
            final(self).inner.strategy == old(self).inner.strategy,
            final(self).inner.extrapolate == (if r is Ok { extrapolate } else { old(self).inner.extrapolate }),
    {
        self.inner.set_extrapolate(extrapolate)
    }

    /// Replace the strategy, then check the extrapolation setting and the new strategy
    /// against the data and initialize it, as the unit-free interpolator does.
    pub fn set_strategy(&mut self, strategy: S) -> (r: Result<(), ValidateError>)
        ensures
            final(self).inner.data == old(self).inner.data,
            final(self).inner.extrapolate == old(self).inner.extrapolate,
            extrapolate_validation(old(self).inner.extrapolate, strategy.extrapolates()) is Err ==> r
                == extrapolate_validation(old(self).inner.extrapolate, strategy.extrapolates())
                && final(self).inner.strategy == strategy,
            extrapolate_validation(old(self).inner.extrapolate, strategy.extrapolates()) is Ok && strategy.validation(old(self).inner.data) is Err ==> r
                == strategy.validation(old(self).inner.data) && final(self).inner.strategy == strategy,
            extrapolate_validation(old(self).inner.extrapolate, strategy.extrapolates()) is Ok && strategy.validation(old(self).inner.data) is Ok ==> (
                final(self).inner.strategy, r) == strategy.initialized(old(self).inner.data),
            r is Ok && old(self).inner.data.shaped() ==> final(self).inner.ready(),
    {
        self.inner.set_strategy(strategy)
    }

    /// Re-run the strategy's validation against the current data.
    pub fn validate_strategy(&self) -> (r: Result<(), ValidateError>)
        ensures
            r == self.inner.strategy.validation(self.inner.data),
    {
        self.inner.validate_strategy()
    }

    /// Re-run the strategy's initialization against the current data.
    pub fn init_strategy(&mut self) -> (r: Result<(), ValidateError>)
        ensures
            final(self).inner.data == old(self).inner.data,
            final(self).inner.extrapolate == old(self).inner.extrapolate,
            (final(self).inner.strategy, r) == old(self).inner.strategy.initialized(old(self).inner.data),
    {
        self.inner.init_strategy()
    }

    /// View the interpolator: a borrow of the same interpolator.
    pub fn view(&self) -> (r: &Self)
        ensures
            *r == *self,
    {
        self
    }

    /// Turn the interpolator into its owned form; its data is owned already.
    pub fn into_owned(self) -> (r: Self)
        ensures
            r == self,
    {
        self
    }
}

} // verus!
