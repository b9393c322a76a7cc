//! Ordering model for grid coordinates, and the small coordinate helpers built on it:
//! clamping, wrapping, and locating a coordinate within a sorted axis.
//!
//! Coordinates are generic over `T: PartialOrd`. What a comparison returns is known to
//! the proofs through `partial_cmp_spec`; the results below are stated for types whose
//! comparisons obey that specification and form a total order ([`ordered`]), which
//! every primitive integer type does.

use vstd::prelude::*;
use vstd::std_specs::cmp::{PartialOrdIs, PartialOrdSpec};
use vstd::std_specs::ops::{AddSpec, RemSpec, SubSpec};
use core::ops::{Add, Rem, Sub};

verus! {

/// `a <= b` under `T`'s comparison specification.
pub open spec fn le<T: PartialOrd>(a: T, b: T) -> bool {
    a.is_le(&b)
}

/// `a < b` under `T`'s comparison specification.
pub open spec fn lt<T: PartialOrd>(a: T, b: T) -> bool {
    a.is_lt(&b)
}

/// `a > b` under `T`'s comparison specification.
pub open spec fn gt<T: PartialOrd>(a: T, b: T) -> bool {
    a.is_gt(&b)
}

/// `T`'s comparison operators compute what their specification says.
pub open spec fn obeys_order<T: PartialOrd>() -> bool {
    T::obeys_partial_cmp_spec()
}

/// `T`'s comparisons obey their specification and form a total order.
pub open spec fn ordered<T: PartialOrd>() -> bool {
    &&& obeys_order::<T>()
    &&& forall|a: T, b: T| #[trigger] le(a, b) || le(b, a)
    &&& forall|a: T, b: T| #![trigger lt(a, b)] #![trigger le(b, a)] lt(a, b) <==> !le(b, a)
    &&& forall|a: T, b: T| #![trigger gt(a, b)] gt(a, b) <==> lt(b, a)
    &&& forall|a: T, b: T, c: T| #![trigger le(a, b), le(b, c)] le(a, b) && le(b, c) ==> le(a, c)
}

/// `T`'s addition, subtraction and remainder obey their specifications.
pub open spec fn exact_arith<T: Add<Output = T> + Sub<Output = T> + Rem<Output = T>>() -> bool {
    &&& T::obeys_add_spec()
    &&& T::obeys_sub_spec()
    &&& T::obeys_rem_spec()
}

/// `x` lies in the closed range `[lo, hi]`.
pub open spec fn in_range<T: PartialOrd>(x: T, lo: T, hi: T) -> bool {
    le(lo, x) && le(x, hi)
}

/// Adjacent elements of `s` are strictly increasing.
pub open spec fn strictly_increasing<T: PartialOrd>(s: Seq<T>) -> bool {
    forall|i: int, j: int| 0 <= i && j == i + 1 && j < s.len() ==> #[trigger] lt(s[i], s[j])
}

/// Every earlier element of `s` is below every later one.
pub open spec fn sorted_strict<T: PartialOrd>(s: Seq<T>) -> bool {
    forall|i: int, j: int| 0 <= i < j < s.len() ==> #[trigger] lt(s[i], s[j])
}

/// `i` is the last index of `s` whose element is at most `p`.
pub open spec fn is_floor<T: PartialOrd>(s: Seq<T>, p: T, i: int) -> bool {
    &&& 0 <= i < s.len()
    &&& le(s[i], p)
    &&& i + 1 < s.len() ==> lt(p, s[i + 1])
}

/// `i` is the first index of `s` whose element is at least `p`.
pub open spec fn is_ceil<T: PartialOrd>(s: Seq<T>, p: T, i: int) -> bool {
    &&& 0 <= i < s.len()
    &&& le(p, s[i])
    &&& i > 0 ==> lt(s[i - 1], p)
}

/// Index of the last element at most `p`, or `0` when `p` lies below every element.
pub open spec fn floor_index<T: PartialOrd>(s: Seq<T>, p: T) -> int {
    if s.len() > 0 && le(s[0], p) {
        choose|i: int| is_floor(s, p, i)
    } else {
        0
    }
}

/// Index of the first element at least `p`, or the last index when `p` lies above
/// every element.
pub open spec fn ceil_index<T: PartialOrd>(s: Seq<T>, p: T) -> int {
    if s.len() > 0 && le(p, s[s.len() - 1]) {
        choose|i: int| is_ceil(s, p, i)
    } else {
        s.len() - 1
    }
}

/// Lower end of the interval `[s[i], s[i + 1]]` that brackets `p`: the floor index,
/// kept one short of the last element so that an upper neighbour always exists.
pub open spec fn bracket_index<T: PartialOrd>(s: Seq<T>, p: T) -> int {
    let f = floor_index(s, p);
    if f >= s.len() - 1 {
        s.len() - 2
    } else {
        f
    }
}

/// `x` clamped into `[lo, hi]`, comparing as `num_traits::clamp` does.
pub open spec fn clamp_spec<T: PartialOrd>(x: T, lo: T, hi: T) -> T {
    if lt(x, lo) {
        lo
    } else if gt(x, hi) {
        hi
    } else {
        x
    }
}

/// `x` wrapped into `[lo, hi)`: `lo + (x - lo).rem_euclid(hi - lo)`, with the
/// Euclidean remainder taken from the truncating one.
pub open spec fn wrap_spec<T: PartialOrd + Add<Output = T> + Sub<Output = T> + Rem<Output = T>>(
    x: T,
    lo: T,
    hi: T,
) -> T {
    let m = hi.sub_spec(lo);
    let r = x.sub_spec(lo).rem_spec(m);
    let zero = lo.sub_spec(lo);
    let e = if lt(r, zero) {
        r.add_spec(m)
    } else {
        r
    };
    lo.add_spec(e)
}

/// Every operation that [`wrap`] performs on `x`, `lo` and `hi` is defined.
pub open spec fn wrap_defined<T: PartialOrd + Add<Output = T> + Sub<Output = T> + Rem<Output = T>>(
    x: T,
    lo: T,
    hi: T,
) -> bool {
    let m = hi.sub_spec(lo);
    let d = x.sub_spec(lo);
    let r = d.rem_spec(m);
    let zero = lo.sub_spec(lo);
    let e = if lt(r, zero) {
        r.add_spec(m)
    } else {
        r
    };
    &&& exact_arith::<T>()
    &&& obeys_order::<T>()
    &&& hi.sub_req(lo)
    &&& x.sub_req(lo)
    &&& d.rem_req(m)
    &&& lo.sub_req(lo)
    &&& lt(r, zero) ==> r.add_req(m)
    &&& lo.add_req(e)
}

/// `a <= b`, as `T` computes it.
pub fn le_exec<T: PartialOrd>(a: &T, b: &T) -> (r: bool)
    ensures
        obeys_order::<T>() ==> r == le(*a, *b),
{
    *a <= *b
}

/// `a < b`, as `T` computes it.
pub fn lt_exec<T: PartialOrd>(a: &T, b: &T) -> (r: bool)
    ensures
        obeys_order::<T>() ==> r == lt(*a, *b),
{
    *a < *b
}

/// Whether `x` lies in `[lo, hi]`, tested as `(lo..=hi).contains(&x)` does.
pub fn in_range_exec<T: PartialOrd>(x: &T, lo: &T, hi: &T) -> (r: bool)
    ensures
        obeys_order::<T>() ==> r == in_range(*x, *lo, *hi),
{
    le_exec(lo, x) && le_exec(x, hi)
}

/// Whether every adjacent pair of `s` is strictly increasing, tested as
/// `s.windows(2).all(|w| w[0] < w[1])` does.
pub fn is_strictly_increasing<T: PartialOrd>(s: &Vec<T>) -> (r: bool)
    ensures
        obeys_order::<T>() ==> r == strictly_increasing(s@),
{
    let mut i: usize = 0;
    while i < s.len() && s.len() - i > 1
        invariant
            obeys_order::<T>() ==> forall|a: int, b: int|
                0 <= a && b == a + 1 && b <= i && b < s@.len() ==> #[trigger] lt(s@[a], s@[b]),
        decreases s.len() - i,
    {
        if !lt_exec(&s[i], &s[i + 1]) {
            proof {
                if obeys_order::<T>() {
                    assert(!lt(s@[i as int], s@[i + 1]));
                }
            }
            return false;
        }
        i = i + 1;
    }
    true
}

/// Restrict `x` to `[lo, hi]`: `lo` below the range, `hi` above it, `x` itself inside.
pub fn clamp<T: PartialOrd + Copy>(x: T, lo: T, hi: T) -> (r: T)
    ensures
        obeys_order::<T>() ==> r == clamp_spec(x, lo, hi),
{
    if x < lo {
        lo
    } else if x > hi {
        hi
    } else {
        x
    }
}

/// Wrap `x` around the interval `[lo, hi)`: `lo + (x - lo).rem_euclid(hi - lo)`.
pub fn wrap<T: PartialOrd + Copy + Add<Output = T> + Sub<Output = T> + Rem<Output = T>>(
    x: T,
    lo: T,
    hi: T,
) -> (r: T)
    requires
        wrap_defined(x, lo, hi),
    ensures
        r == wrap_spec(x, lo, hi),
{
    let m = hi - lo;
    let d = x - lo;
    let r = d % m;
    let zero = lo - lo;
    let e = if r < zero {
        r + m
    } else {
        r
    };
    lo + e
}

/// Under a total order, an adjacent-strictly-increasing sequence is strictly increasing
/// between any two positions.
pub proof fn lemma_sorted_from_adjacent<T: PartialOrd>(s: Seq<T>)
    requires
        ordered::<T>(),
        strictly_increasing(s),
    ensures
        sorted_strict(s),
{
    assert forall|i: int, j: int| 0 <= i < j < s.len() implies #[trigger] lt(s[i], s[j]) by {
        lemma_sorted_step(s, i, j);
    }
}

proof fn lemma_sorted_step<T: PartialOrd>(s: Seq<T>, i: int, j: int)
    requires
        ordered::<T>(),
        strictly_increasing(s),
        0 <= i < j < s.len(),
    ensures
        lt(s[i], s[j]),
    decreases j - i,
{
    if j == i + 1 {
        assert(lt(s[i], s[i + 1]));
    } else {
        lemma_sorted_step(s, i, j - 1);
        let a = s[i];
        let b = s[j - 1];
        let c = s[j];
        assert(lt(s[j - 1], s[j]));
        assert(lt(a, b));
        assert(!le(b, a));
        assert(!le(c, b));
        assert(le(a, b));
        assert(le(b, c));
        assert(le(a, c));
        if le(c, a) {
            assert(le(c, b));
        }
    }
}

/// A floor index is unique in a strictly increasing sequence.
pub proof fn lemma_floor_unique<T: PartialOrd>(s: Seq<T>, p: T, i: int, j: int)
    requires
        ordered::<T>(),
        sorted_strict(s),
        is_floor(s, p, i),
        is_floor(s, p, j),
    ensures
        i == j,
{
    if i < j {
        assert(lt(p, s[i + 1]));
        if i + 1 < j {
            assert(lt(s[i + 1], s[j]));
            assert(le(s[i + 1], s[j]));
        }
        assert(le(s[j], p));
        assert(!le(s[i + 1], p));
    } else if j < i {
        assert(lt(p, s[j + 1]));
        if j + 1 < i {
            assert(lt(s[j + 1], s[i]));
            assert(le(s[j + 1], s[i]));
        }
        assert(le(s[i], p));
        assert(!le(s[j + 1], p));
    }
}

/// A ceiling index is unique in a strictly increasing sequence.
pub proof fn lemma_ceil_unique<T: PartialOrd>(s: Seq<T>, p: T, i: int, j: int)
    requires
        ordered::<T>(),
        sorted_strict(s),
        is_ceil(s, p, i),
        is_ceil(s, p, j),
    ensures
        i == j,
{
    if i < j {
        assert(lt(s[j - 1], p));
        if i < j - 1 {
            assert(lt(s[i], s[j - 1]));
            assert(le(s[i], s[j - 1]));
        }
        assert(le(p, s[i]));
        assert(!le(p, s[j - 1]));
    } else if j < i {
        assert(lt(s[i - 1], p));
        if j < i - 1 {
            assert(lt(s[j], s[i - 1]));
            assert(le(s[j], s[i - 1]));
        }
        assert(le(p, s[j]));
        assert(!le(p, s[i - 1]));
    }
}

/// Index of the last element of `s` at most `p`, or `0` when there is none, by
/// binary search.
pub fn find_floor<T: PartialOrd>(s: &Vec<T>, p: &T) -> (r: usize)
    requires
        s.len() >= 1,
    ensures
        r < s.len(),
        ordered::<T>() && strictly_increasing(s@) ==> r == floor_index(s@, *p),
{
    if !le_exec(&s[0], p) {
        return 0;
    }
    let mut lo: usize = 0;
    let mut hi: usize = s.len();
    while hi - lo > 1
        invariant
            lo < hi <= s.len(),
            obeys_order::<T>() ==> le(s@[lo as int], *p),
            ordered::<T>() ==> (hi < s.len() ==> lt(*p, s@[hi as int])),
        decreases hi - lo,
    {
        let mid = lo + (hi - lo) / 2;
        if le_exec(&s[mid], p) {
            lo = mid;
        } else {
            proof {
                if ordered::<T>() {
                    assert(!le(s@[mid as int], *p));
                    assert(lt(*p, s@[mid as int]));
                }
            }
            hi = mid;
        }
    }
    proof {
        if ordered::<T>() && strictly_increasing(s@) {
            lemma_sorted_from_adjacent(s@);
            assert(is_floor(s@, *p, lo as int));
            let c = choose|i: int| is_floor(s@, *p, i);
            lemma_floor_unique(s@, *p, lo as int, c);
        }
    }
    lo
}

/// Index of the first element of `s` at least `p`, or the last index when there is
/// none, by binary search.
pub fn find_ceil<T: PartialOrd>(s: &Vec<T>, p: &T) -> (r: usize)
    requires
        s.len() >= 1,
    ensures
        r < s.len(),
        ordered::<T>() && strictly_increasing(s@) ==> r == ceil_index(s@, *p),
{
    let last = s.len() - 1;
    if !le_exec(p, &s[last]) {
        return last;
    }
    if le_exec(p, &s[0]) {
        proof {
            if ordered::<T>() && strictly_increasing(s@) {
                lemma_sorted_from_adjacent(s@);
                assert(is_ceil(s@, *p, 0));
                let c = choose|i: int| is_ceil(s@, *p, i);
                lemma_ceil_unique(s@, *p, 0, c);
            }
        }
        return 0;
    }
    if last == 0 {
        return 0;
    }
    let mut lo: usize = 0;
    let mut hi: usize = last;
    while hi - lo > 1
        invariant
            lo < hi <= last,
            last == s.len() - 1,
            obeys_order::<T>() ==> le(*p, s@[hi as int]),
            obeys_order::<T>() ==> !le(*p, s@[lo as int]),
        decreases hi - lo,
    {
        let mid = lo + (hi - lo) / 2;
        if le_exec(p, &s[mid]) {
            hi = mid;
        } else {
            lo = mid;
        }
    }
    proof {
        if ordered::<T>() && strictly_increasing(s@) {
            lemma_sorted_from_adjacent(s@);
            assert(lt(s@[lo as int], *p));
            assert(is_ceil(s@, *p, hi as int));
            let c = choose|i: int| is_ceil(s@, *p, i);
            lemma_ceil_unique(s@, *p, hi as int, c);
        }
    }
    hi
}

/// Lower end of the grid interval that brackets `p`, always leaving an upper neighbour.
pub fn find_bracket<T: PartialOrd>(s: &Vec<T>, p: &T) -> (r: usize)
    requires
        s.len() >= 2,
    ensures
        r + 1 < s.len(),
        ordered::<T>() && strictly_increasing(s@) ==> r == bracket_index(s@, *p),
{
    let f = find_floor(s, p);
    if f >= s.len() - 1 {
        s.len() - 2
    } else {
        f
    }
}

/// The primitive type `i64` is ordered.
pub proof fn lemma_ordered_i64()
    ensures
        ordered::<i64>(),
{
}

} // verus!
