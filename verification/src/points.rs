//! Runtime-length query points, checked against an interpolator's dimensionality and
//! turned into the fixed-size points the interpolators take.

use vstd::prelude::*;
use crate::error::{InterpolateError, WrongLengthAt};

verus! {

/// The coordinates of each point of a batch.
pub open spec fn slice_views<T>(points: Seq<&[T]>) -> Seq<Seq<T>> {
    points.map_values(|p: &[T]| p@)
}

/// One entry, in order, for each of the first `n` points whose length is not `len`.
pub open spec fn length_failures<T>(points: Seq<Seq<T>>, len: nat, n: int) -> Seq<WrongLengthAt>
    decreases n,
{
    if n <= 0 {
        Seq::empty()
    } else {
        let prev = length_failures(points, len, n - 1);
        if points[n - 1].len() == len {
            prev
        } else {
            prev.push(WrongLengthAt { index: (n - 1) as usize, found: points[n - 1].len() as usize })
        }
    }
}

/// No failure is listed among the first `n` points exactly when each has length `len`.
pub proof fn lemma_length_failures_empty<T>(points: Seq<Seq<T>>, len: nat, n: int)
    requires
        0 <= n <= points.len(),
    ensures
        length_failures(points, len, n).len() == 0 <==> forall|i: int| 0 <= i < n ==> (#[trigger] points[i]).len() == len,
    decreases n,
{
    if n > 0 {
        lemma_length_failures_empty(points, len, n - 1);
    }
}

/// Copies `s` into an array of `N` elements: `<[T; N]>::try_from`, which the standard
/// library documents as succeeding exactly when `s.len() == N`. The contract claims
/// that and that the array holds the slice's elements in order.
#[verifier::external_body]
fn array_from_slice<T: Copy, const N: usize>(s: &[T]) -> (r: Option<[T; N]>)
    ensures
        r is Some <==> s@.len() == N,
        r matches Some(a) ==> a@ == s@,
{
    <[T; N]>::try_from(s).ok()
}

/// `point` as a point of `N` coordinates, or a point-length error that reports its
/// length.
pub fn to_fixed_point<T: Copy, const N: usize>(point: &[T]) -> (r: Result<[T; N], InterpolateError>)
    ensures
        point@.len() == N ==> (r matches Ok(a) && a@ == point@),
        point@.len() != N ==> (r matches Err(InterpolateError::PointLength { expected, failures })
            && expected == N && failures@ == seq![WrongLengthAt { index: 0, found: point@.len() as usize }]),
{
    match array_from_slice(point) {
        Some(a) => Ok(a),
        None => Err(
            InterpolateError::PointLength {
                expected: N,
                failures: vec![WrongLengthAt::new(0, point.len())],
            },
        ),
    }
}

/// Every point of `points` as a point of `N` coordinates, or one point-length error
/// that lists every point of another length, in order.
pub fn to_fixed_points<T: Copy, const N: usize>(points: &[&[T]]) -> (r: Result<Vec<[T; N]>, InterpolateError>)
    ensures
        r is Ok <==> forall|i: int| 0 <= i < points@.len() ==> (#[trigger] points@[i])@.len() == N,
        r matches Ok(v) ==> v@.len() == points@.len() && forall|i: int| 0 <= i < points@.len() ==> (#[trigger] v@[i])@ == points@[i]@,
        r matches Err(e) ==> (e matches InterpolateError::PointLength { expected, failures } && expected == N
            && failures@ == length_failures(slice_views(points@), N as nat, points@.len() as int)),
{
    let ghost views = slice_views(points@);
    let mut converted: Vec<[T; N]> = Vec::new();
    let mut failures: Vec<WrongLengthAt> = Vec::new();
    let mut i: usize = 0;
    while i < points.len()
        invariant
            i <= points@.len(),
            views == slice_views(points@),
            failures@ == length_failures(views, N as nat, i as int),
            failures@.len() == 0 ==> converted@.len() == i && forall|k: int| 0 <= k < i ==> (#[trigger] converted@[k])@ == points@[k]@,
        decreases points@.len() - i,
    {
        let point: &[T] = points[i];
        assert(views[i as int] == point@);
        match array_from_slice(point) {
            Some(a) => {
                converted.push(a);
            },
            None => {
                failures.push(WrongLengthAt::new(i, point.len()));
            },
        }
        i = i + 1;
    }
    proof {
        lemma_length_failures_empty(views, N as nat, points@.len() as int);
        if forall|k: int| 0 <= k < points@.len() ==> (#[trigger] points@[k])@.len() == N {
            assert forall|k: int| 0 <= k < points@.len() implies (#[trigger] views[k]).len() == N by {
                assert(views[k] == points@[k]@);
            }
        }
        if failures@.len() == 0 {
            assert forall|k: int| 0 <= k < points@.len() implies (#[trigger] points@[k])@.len() == N by {
                assert(views[k] == points@[k]@);
            }
        }
    }
    if failures.len() == 0 {
        Ok(converted)
    } else {
        Err(InterpolateError::PointLength { expected: N, failures })
    }
}

} // verus!
