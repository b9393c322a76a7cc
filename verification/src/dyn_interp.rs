//! A thread-safe interpolator interface over runtime-length points, for storing
//! different interpolators behind one trait object.

use vstd::prelude::*;
use crate::error::InterpolateError;

verus! {

/// An interpolator over runtime-length points that can be shared between threads.
/// Implement it for an interpolator type; `slice_interpolation` says what
/// interpolating at a point returns.
pub trait DynInterpolator<T>: Send + Sync {
    /// What interpolating at `point` returns.
    spec fn slice_interpolation(&self, point: &[T]) -> Result<T, InterpolateError>;

    /// Interpolate at the supplied point.
    fn interpolate_slice(&self, point: &[T]) -> (r: Result<T, InterpolateError>)
        ensures
            r == self.slice_interpolation(point),
    ;

    /// Interpolate at each of several points: every point's value in order, or the
    /// error of the first point that fails.
    fn batch_interpolate_slice(&self, points: &[&[T]]) -> (r: Result<Vec<T>, InterpolateError>)
        ensures
            r matches Ok(v) ==> v@.len() == points@.len() && forall|i: int|
                0 <= i < points@.len() ==> self.slice_interpolation(#[trigger] points@[i]) == Ok::<
                    T,
                    InterpolateError,
                >(v@[i]),
            r matches Err(e) ==> exists|k: int|
                0 <= k < points@.len() && (forall|i: int|
                    0 <= i < k ==> self.slice_interpolation(#[trigger] points@[i]) is Ok)
                    && self.slice_interpolation(points@[k]) == Err::<T, InterpolateError>(e),
    {
        let mut out: Vec<T> = Vec::new();
        let mut i: usize = 0;
        while i < points.len()
            invariant
                i <= points@.len(),
                out@.len() == i,
                forall|j: int|
                    0 <= j < i ==> self.slice_interpolation(#[trigger] points@[j]) == Ok::<
                        T,
                        InterpolateError,
                    >(out@[j]),
            decreases points@.len() - i,
        {
            match self.interpolate_slice(points[i]) {
                Ok(v) => {
                    out.push(v);
                },
                Err(e) => {
                    assert(forall|j: int|
                        0 <= j < i ==> self.slice_interpolation(#[trigger] points@[j]) is Ok);
                    return Err(e);
                },
            }
            i = i + 1;
        }
        Ok(out)
    }
}

} // verus!
