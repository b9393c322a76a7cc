//! Human-readable messages for the error types.
//!
//! A failure list renders a lone failure as one sentence and several under a summary
//! line. Point indices are shown only once some failure is at a nonzero index, which
//! never happens for a single-point call.

use vstd::prelude::*;
use crate::error::{InterpolateError, OutOfBoundsAt, OutsideDomainAt, Transform, ValidateError, WrongLengthAt};

verus! {

/// Appends `t` to `s`.
fn push_text(s: &mut String, t: &str)
    ensures
        final(s)@ == old(s)@ + t@,
{
    s.append(t);
}

/// The decimal digit `d`, for `0 <= d < 10`.
pub open spec fn digit_text(d: nat) -> Seq<char> {
    if d == 0 {
        "0"@
    } else if d == 1 {
        "1"@
    } else if d == 2 {
        "2"@
    } else if d == 3 {
        "3"@
    } else if d == 4 {
        "4"@
    } else if d == 5 {
        "5"@
    } else if d == 6 {
        "6"@
    } else if d == 7 {
        "7"@
    } else if d == 8 {
        "8"@
    } else {
        "9"@
    }
}

/// `n` written in decimal, without leading zeros.
pub open spec fn decimal(n: nat) -> Seq<char>
    decreases n,
{
    if n < 10 {
        digit_text(n)
    } else {
        decimal(n / 10) + digit_text(n % 10)
    }
}

/// Appends the decimal digit `d`.
fn push_digit(s: &mut String, d: usize)
    requires
        d < 10,
    ensures
        final(s)@ == old(s)@ + digit_text(d as nat),
{
    if d == 0 {
        push_text(s, "0");
    } else if d == 1 {
        push_text(s, "1");
    } else if d == 2 {
        push_text(s, "2");
    } else if d == 3 {
        push_text(s, "3");
    } else if d == 4 {
        push_text(s, "4");
    } else if d == 5 {
        push_text(s, "5");
    } else if d == 6 {
        push_text(s, "6");
    } else if d == 7 {
        push_text(s, "7");
    } else if d == 8 {
        push_text(s, "8");
    } else {
        push_text(s, "9");
    }
}

/// Appends `n` in decimal.
fn push_decimal(s: &mut String, n: usize)
    ensures
        final(s)@ == old(s)@ + decimal(n as nat),
    decreases n,
{
    if n >= 10 {
        push_decimal(s, n / 10);
    }
    push_digit(s, n % 10);
    proof {
        if n >= 10 {
            assert(old(s)@ + decimal((n / 10) as nat) + digit_text((n % 10) as nat) =~= old(s)@ + decimal(
                n as nat,
            ));
        }
    }
}

/// How a transform is named in messages: its variant's name.
pub open spec fn transform_text(t: Transform) -> Seq<char> {
    match t {
        Transform::Log => "Log"@,
        Transform::Reciprocal => "Reciprocal"@,
    }
}

/// Appends the name of `t`.
fn push_transform(s: &mut String, t: Transform)
    ensures
        final(s)@ == old(s)@ + transform_text(t),
{
    match t {
        Transform::Log => push_text(s, "Log"),
        Transform::Reciprocal => push_text(s, "Reciprocal"),
    }
}

/// `values` followed by each position of `index` in square brackets.
pub open spec fn values_index_text(index: Seq<usize>, n: int) -> Seq<char>
    decreases n,
{
    if n <= 0 {
        Seq::empty()
    } else {
        values_index_text(index, n - 1) + "["@ + decimal(index[n - 1] as nat) + "]"@
    }
}

/// Renders a values-array index as `[i][j][k]`, e.g. `[6][153][2]`.
pub fn fmt_values_index(index: &[usize]) -> (r: String)
    ensures
        r@ == values_index_text(index@, index@.len() as int),
{
    let mut s = String::new();
    let mut i: usize = 0;
    while i < index.len()
        invariant
            i <= index@.len(),
            s@ == values_index_text(index@, i as int),
        decreases index@.len() - i,
    {
        let ghost before = s@;
        push_text(&mut s, "[");
        push_decimal(&mut s, index[i]);
        push_text(&mut s, "]");
        assert(s@ =~= values_index_text(index@, i + 1));
        i = i + 1;
    }
    s
}

/// `point[i]` when indices are shown, otherwise `point`.
pub open spec fn point_text(index: usize, show: bool) -> Seq<char> {
    if show {
        "point["@ + decimal(index as nat) + "]"@
    } else {
        "point"@
    }
}

/// Renders `point`, or `point[index]` when there is anything to disambiguate.
pub fn point_at(index: usize, show: bool) -> (r: String)
    ensures
        r@ == point_text(index, show),
{
    let mut s = String::new();
    if show {
        push_text(&mut s, "point[");
        push_decimal(&mut s, index);
        push_text(&mut s, "]");
    } else {
        push_text(&mut s, "point");
    }
    assert(s@ =~= point_text(index, show));
    s
}

/// Some index is nonzero.
pub open spec fn any_nonzero(indices: Seq<usize>) -> bool {
    exists|i: int| 0 <= i < indices.len() && indices[i] != 0
}

/// Some index differs from the first.
pub open spec fn any_differs(indices: Seq<usize>) -> bool {
    exists|i: int| 0 <= i < indices.len() && #[trigger] indices[i] != indices[0]
}

/// Whether point indices are worth printing: only once some index is nonzero.
pub fn show_index(indices: &[usize]) -> (r: bool)
    ensures
        r == any_nonzero(indices@),
{
    let mut i: usize = 0;
    while i < indices.len()
        invariant
            i <= indices@.len(),
            forall|j: int| 0 <= j < i ==> indices@[j] == 0,
        decreases indices@.len() - i,
    {
        if indices[i] != 0 {
            return true;
        }
        i = i + 1;
    }
    false
}

/// Whether the indices name more than one point.
fn several_points(indices: &[usize]) -> (r: bool)
    ensures
        r == any_differs(indices@),
{
    if indices.len() == 0 {
        return false;
    }
    let first = indices[0];
    let mut i: usize = 0;
    while i < indices.len()
        invariant
            i <= indices@.len(),
            first == indices@[0],
            forall|j: int| 0 <= j < i ==> indices@[j] == first,
        decreases indices@.len() - i,
    {
        if indices[i] != first {
            return true;
        }
        i = i + 1;
    }
    false
}

/// `points` when the failures name more than one point, otherwise `point`.
pub open spec fn subject_text(indices: Seq<usize>) -> Seq<char> {
    if any_differs(indices) {
        "points"@
    } else {
        "point"@
    }
}

/// The point positions of out-of-bounds failures.
pub open spec fn out_of_bounds_indices(f: Seq<OutOfBoundsAt>) -> Seq<usize> {
    f.map_values(|a: OutOfBoundsAt| a.index)
}

/// The point positions of wrong-length failures.
pub open spec fn point_length_indices(f: Seq<WrongLengthAt>) -> Seq<usize> {
    f.map_values(|a: WrongLengthAt| a.index)
}

/// The point positions of outside-domain failures.
pub open spec fn outside_domain_indices(f: Seq<OutsideDomainAt>) -> Seq<usize> {
    f.map_values(|a: OutsideDomainAt| a.index)
}

/// The lines listing the first `n` out-of-bounds failures.
pub open spec fn out_of_bounds_lines(f: Seq<OutOfBoundsAt>, show: bool, n: int) -> Seq<char>
    decreases n,
{
    if n <= 0 {
        Seq::empty()
    } else {
        out_of_bounds_lines(f, show, n - 1) + "\n    "@ + point_text(f[n - 1].index, show) + " in dim "@
            + decimal(f[n - 1].dim as nat)
    }
}

/// The message for out-of-bounds failures `f`.
pub open spec fn out_of_bounds_text(f: Seq<OutOfBoundsAt>) -> Seq<char> {
    let show = any_nonzero(out_of_bounds_indices(f));
    if f.len() == 1 {
        point_text(f[0].index, show) + " is out of bounds in dim "@ + decimal(f[0].dim as nat)
            + " with `Extrapolate::Error` set"@
    } else {
        subject_text(out_of_bounds_indices(f)) + " out of bounds with `Extrapolate::Error` set:"@
            + out_of_bounds_lines(f, show, f.len() as int)
    }
}

/// The lines listing the first `n` wrong-length failures.
pub open spec fn point_length_lines(f: Seq<WrongLengthAt>, show: bool, n: int) -> Seq<char>
    decreases n,
{
    if n <= 0 {
        Seq::empty()
    } else {
        point_length_lines(f, show, n - 1) + "\n    "@ + point_text(f[n - 1].index, show) + " has length "@
            + decimal(f[n - 1].found as nat)
    }
}

/// The message for wrong-length failures `f` of points that needed `expected`
/// coordinates.
pub open spec fn point_length_text(expected: usize, f: Seq<WrongLengthAt>) -> Seq<char> {
    let show = any_nonzero(point_length_indices(f));
    if f.len() == 1 {
        point_text(f[0].index, show) + " has length "@ + decimal(f[0].found as nat) + ", expected "@ + decimal(
            expected as nat,
        ) + " for "@ + decimal(expected as nat) + "-D interpolation"@
    } else {
        "points have the wrong length for "@ + decimal(expected as nat) + "-D interpolation:"@
            + point_length_lines(f, show, f.len() as int)
    }
}

/// The lines listing the first `n` outside-domain failures.
pub open spec fn outside_domain_lines(f: Seq<OutsideDomainAt>, show: bool, n: int) -> Seq<char>
    decreases n,
{
    if n <= 0 {
        Seq::empty()
    } else {
        outside_domain_lines(f, show, n - 1) + "\n    "@ + point_text(f[n - 1].index, show) + " in dim "@
            + decimal(f[n - 1].dim as nat) + " ("@ + transform_text(f[n - 1].transform) + "'s domain)"@
    }
}

/// The message for outside-domain failures `f`.
pub open spec fn outside_domain_text(f: Seq<OutsideDomainAt>) -> Seq<char> {
    let show = any_nonzero(outside_domain_indices(f));
    if f.len() == 1 {
        "GridTransform: "@ + point_text(f[0].index, show) + " is outside "@ + transform_text(f[0].transform)
            + "'s domain in dim "@ + decimal(f[0].dim as nat)
    } else {
        "GridTransform: "@ + subject_text(outside_domain_indices(f)) + " outside transform's domain:"@
            + outside_domain_lines(f, show, f.len() as int)
    }
}

/// The point positions of out-of-bounds failures.
fn out_of_bounds_positions(failures: &[OutOfBoundsAt]) -> (r: Vec<usize>)
    ensures
        r@ == out_of_bounds_indices(failures@),
{
    let mut r: Vec<usize> = Vec::new();
    let mut i: usize = 0;
    while i < failures.len()
        invariant
            i <= failures@.len(),
            r@ == out_of_bounds_indices(failures@.subrange(0, i as int)),
        decreases failures@.len() - i,
    {
        r.push(failures[i].index);
        assert(failures@.subrange(0, i + 1) =~= failures@.subrange(0, i as int).push(failures@[i as int]));
        i = i + 1;
    }
    assert(failures@.subrange(0, failures@.len() as int) =~= failures@);
    r
}

/// The point positions of wrong-length failures.
fn point_length_positions(failures: &[WrongLengthAt]) -> (r: Vec<usize>)
    ensures
        r@ == point_length_indices(failures@),
{
    let mut r: Vec<usize> = Vec::new();
    let mut i: usize = 0;
    while i < failures.len()
        invariant
            i <= failures@.len(),
            r@ == point_length_indices(failures@.subrange(0, i as int)),
        decreases failures@.len() - i,
    {
        r.push(failures[i].index);
        assert(failures@.subrange(0, i + 1) =~= failures@.subrange(0, i as int).push(failures@[i as int]));
        i = i + 1;
    }
    assert(failures@.subrange(0, failures@.len() as int) =~= failures@);
    r
}

/// The point positions of outside-domain failures.
fn outside_domain_positions(failures: &[OutsideDomainAt]) -> (r: Vec<usize>)
    ensures
        r@ == outside_domain_indices(failures@),
{
    let mut r: Vec<usize> = Vec::new();
    let mut i: usize = 0;
    while i < failures.len()
        invariant
            i <= failures@.len(),
            r@ == outside_domain_indices(failures@.subrange(0, i as int)),
        decreases failures@.len() - i,
    {
        r.push(failures[i].index);
        assert(failures@.subrange(0, i + 1) =~= failures@.subrange(0, i as int).push(failures@[i as int]));
        i = i + 1;
    }
    assert(failures@.subrange(0, failures@.len() as int) =~= failures@);
    r
}

/// Appends `point_text(index, show)`.
fn push_point(s: &mut String, index: usize, show: bool)
    ensures
        final(s)@ == old(s)@ + point_text(index, show),
{
    let p = point_at(index, show);
    push_text(s, p.as_str());
}

/// Renders out-of-bounds failures: a lone failure as one sentence, several under a
/// summary line, one line each.
pub fn fmt_out_of_bounds(failures: &[OutOfBoundsAt]) -> (r: String)
    ensures
        r@ == out_of_bounds_text(failures@),
{
    let positions = out_of_bounds_positions(failures);
    let show = show_index(positions.as_slice());
    let mut s = String::new();
    if failures.len() == 1 {
        let at = failures[0];
        push_point(&mut s, at.index, show);
        push_text(&mut s, " is out of bounds in dim ");
        push_decimal(&mut s, at.dim);
        push_text(&mut s, " with `Extrapolate::Error` set");
        assert(s@ =~= out_of_bounds_text(failures@));
        return s;
    }
    if several_points(positions.as_slice()) {
        push_text(&mut s, "points");
    } else {
        push_text(&mut s, "point");
    }
    push_text(&mut s, " out of bounds with `Extrapolate::Error` set:");
    let ghost head = s@;
    let mut i: usize = 0;
    while i < failures.len()
        invariant
            i <= failures@.len(),
            s@ == head + out_of_bounds_lines(failures@, show, i as int),
        decreases failures@.len() - i,
    {
        let at = failures[i];
        push_text(&mut s, "\n    ");
        push_point(&mut s, at.index, show);
        push_text(&mut s, " in dim ");
        push_decimal(&mut s, at.dim);
        assert(s@ =~= head + out_of_bounds_lines(failures@, show, i + 1));
        i = i + 1;
    }
    assert(s@ =~= out_of_bounds_text(failures@));
    s
}

/// Renders wrong-length failures of points that needed `expected` coordinates.
pub fn fmt_point_length(expected: usize, failures: &[WrongLengthAt]) -> (r: String)
    ensures
        r@ == point_length_text(expected, failures@),
{
    let positions = point_length_positions(failures);
    let show = show_index(positions.as_slice());
    let mut s = String::new();
    if failures.len() == 1 {
        let at = failures[0];
        push_point(&mut s, at.index, show);
        push_text(&mut s, " has length ");
        push_decimal(&mut s, at.found);
        push_text(&mut s, ", expected ");
        push_decimal(&mut s, expected);
        push_text(&mut s, " for ");
        push_decimal(&mut s, expected);
        push_text(&mut s, "-D interpolation");
        assert(s@ =~= point_length_text(expected, failures@));
        return s;
    }
    push_text(&mut s, "points have the wrong length for ");
    push_decimal(&mut s, expected);
    push_text(&mut s, "-D interpolation:");
    let ghost head = s@;
    let mut i: usize = 0;
    while i < failures.len()
        invariant
            i <= failures@.len(),
            s@ == head + point_length_lines(failures@, show, i as int),
        decreases failures@.len() - i,
    {
        let at = failures[i];
        push_text(&mut s, "\n    ");
        push_point(&mut s, at.index, show);
        push_text(&mut s, " has length ");
        push_decimal(&mut s, at.found);
        assert(s@ =~= head + point_length_lines(failures@, show, i + 1));
        i = i + 1;
    }
    assert(s@ =~= point_length_text(expected, failures@));
    s
}

/// Renders outside-domain failures.
pub fn fmt_outside_domain(failures: &[OutsideDomainAt]) -> (r: String)
    ensures
        r@ == outside_domain_text(failures@),
{
    let positions = outside_domain_positions(failures);
    let show = show_index(positions.as_slice());
    let mut s = String::new();
    push_text(&mut s, "GridTransform: ");
    if failures.len() == 1 {
        let at = failures[0];
        push_point(&mut s, at.index, show);
        push_text(&mut s, " is outside ");
        push_transform(&mut s, at.transform);
        push_text(&mut s, "'s domain in dim ");
        push_decimal(&mut s, at.dim);
        assert(s@ =~= outside_domain_text(failures@));
        return s;
    }
    if several_points(positions.as_slice()) {
        push_text(&mut s, "points");
    } else {
        push_text(&mut s, "point");
    }
    push_text(&mut s, " outside transform's domain:");
    let ghost head = s@;
    let mut i: usize = 0;
    while i < failures.len()
        invariant
            i <= failures@.len(),
            s@ == head + outside_domain_lines(failures@, show, i as int),
        decreases failures@.len() - i,
    {
        let at = failures[i];
        push_text(&mut s, "\n    ");
        push_point(&mut s, at.index, show);
        push_text(&mut s, " in dim ");
        push_decimal(&mut s, at.dim);
        push_text(&mut s, " (");
        push_transform(&mut s, at.transform);
        push_text(&mut s, "'s domain)");
        assert(s@ =~= head + outside_domain_lines(failures@, show, i + 1));
        i = i + 1;
    }
    assert(s@ =~= outside_domain_text(failures@));
    s
}

impl ValidateError {
    /// The error's message.
    pub open spec fn text(&self) -> Seq<char> {
        match self {
            ValidateError::ExtrapolateUnsupported => "`Extrapolate::Enable` is not supported by this strategy"@,
            ValidateError::InsufficientGridPoints(d) => "at least 2 grid points are required per dimension: dim "@
                + decimal(*d as nat),
            ValidateError::NotStrictlyIncreasing(d) => "supplied coordinates must be strictly increasing: dim "@
                + decimal(*d as nat),
            ValidateError::NonUniform { dim, index } => "grid["@ + decimal(*dim as nat)
                + "] is not uniformly spaced (spacing changes at index "@ + decimal(*index as nat) + ")"@,
            ValidateError::IncompatibleShapes(d) => "supplied grid and values are not compatible shapes: dim "@
                + decimal(*d as nat),
            ValidateError::GridAxisCount { expected, found } => "grid has "@ + decimal(*found as nat)
                + " axes, expected "@ + decimal(*expected as nat) + " to match the values"@,
            ValidateError::PerAxisLen { label, noun, ndim, found } => label@ + " has "@ + decimal(*found as nat)
                + " "@ + noun@ + " but interpolator is "@ + decimal(*ndim as nat) + "-D (expected "@ + decimal(
                *ndim as nat,
            ) + ")"@,
            ValidateError::GridTransformDomain { transform, dim, index } => "GridTransform: grid["@ + decimal(
                *dim as nat,
            ) + "]["@ + decimal(*index as nat) + "] is outside "@ + transform_text(*transform) + "'s domain"@,
            ValidateError::GridTransformNotMonotonic { transform, dim, index } => "GridTransform: grid["@
                + decimal(*dim as nat) + "] is not monotonic under "@ + transform_text(*transform)
                + " (direction changes at index "@ + decimal(*index as nat) + ")"@,
            ValidateError::ValuesTransformDomain { transform, index } => "ValuesTransform: values"@
                + values_index_text(index@, index@.len() as int) + " is outside "@ + transform_text(*transform)
                + "'s domain"@,
            ValidateError::Other(m) => m@,
        }
    }

    /// The error's message, as the error's `Display` renders it.
    pub fn message(&self) -> (r: String)
        ensures
            r@ == self.text(),
    {
        let mut s = String::new();
        match self {
            ValidateError::ExtrapolateUnsupported => {
                push_text(&mut s, "`Extrapolate::Enable` is not supported by this strategy");
            },
            ValidateError::InsufficientGridPoints(d) => {
                push_text(&mut s, "at least 2 grid points are required per dimension: dim ");
                push_decimal(&mut s, *d);
            },
            ValidateError::NotStrictlyIncreasing(d) => {
                push_text(&mut s, "supplied coordinates must be strictly increasing: dim ");
                push_decimal(&mut s, *d);
            },
            ValidateError::NonUniform { dim, index } => {
                push_text(&mut s, "grid[");
                push_decimal(&mut s, *dim);
                push_text(&mut s, "] is not uniformly spaced (spacing changes at index ");
                push_decimal(&mut s, *index);
                push_text(&mut s, ")");
            },
            ValidateError::IncompatibleShapes(d) => {
                push_text(&mut s, "supplied grid and values are not compatible shapes: dim ");
                push_decimal(&mut s, *d);
            },
            ValidateError::GridAxisCount { expected, found } => {
                push_text(&mut s, "grid has ");
                push_decimal(&mut s, *found);
                push_text(&mut s, " axes, expected ");
                push_decimal(&mut s, *expected);
                push_text(&mut s, " to match the values");
            },
            ValidateError::PerAxisLen { label, noun, ndim, found } => {
                push_text(&mut s, label);
                push_text(&mut s, " has ");
                push_decimal(&mut s, *found);
                push_text(&mut s, " ");
                push_text(&mut s, noun);
                push_text(&mut s, " but interpolator is ");
                push_decimal(&mut s, *ndim);
                push_text(&mut s, "-D (expected ");
                push_decimal(&mut s, *ndim);
                push_text(&mut s, ")");
            },
            ValidateError::GridTransformDomain { transform, dim, index } => {
                push_text(&mut s, "GridTransform: grid[");
                push_decimal(&mut s, *dim);
                push_text(&mut s, "][");
                push_decimal(&mut s, *index);
                push_text(&mut s, "] is outside ");
                push_transform(&mut s, *transform);
                push_text(&mut s, "'s domain");
            },
            ValidateError::GridTransformNotMonotonic { transform, dim, index } => {
                push_text(&mut s, "GridTransform: grid[");
                push_decimal(&mut s, *dim);
                push_text(&mut s, "] is not monotonic under ");
                push_transform(&mut s, *transform);
                push_text(&mut s, " (direction changes at index ");
                push_decimal(&mut s, *index);
                push_text(&mut s, ")");
            },
            ValidateError::ValuesTransformDomain { transform, index } => {
                push_text(&mut s, "ValuesTransform: values");
                let at = fmt_values_index(index.as_slice());
                push_text(&mut s, at.as_str());
                push_text(&mut s, " is outside ");
                push_transform(&mut s, *transform);
                push_text(&mut s, "'s domain");
            },
            ValidateError::Other(m) => {
                push_text(&mut s, m.as_str());
            },
        }
        assert(s@ =~= self.text());
        s
    }
}

impl InterpolateError {
    /// The error's message.
    pub open spec fn text(&self) -> Seq<char> {
        match self {
            InterpolateError::OutOfBounds(f) => out_of_bounds_text(f@),
            InterpolateError::PointLength { expected, failures } => point_length_text(*expected, failures@),
            InterpolateError::OutputLength { expected, found } => "output slice has length "@ + decimal(
                *found as nat,
            ) + ", expected "@ + decimal(*expected as nat),
            InterpolateError::GridTransformDomain(f) => outside_domain_text(f@),
            InterpolateError::Other(m) => m@,
        }
    }

    /// The error's message, as the error's `Display` renders it.
    pub fn message(&self) -> (r: String)
        ensures
            r@ == self.text(),
    {
        match self {
            InterpolateError::OutOfBounds(f) => fmt_out_of_bounds(f.as_slice()),
            InterpolateError::PointLength { expected, failures } => fmt_point_length(*expected, failures.as_slice()),
            InterpolateError::OutputLength { expected, found } => {
                let mut s = String::new();
                push_text(&mut s, "output slice has length ");
                push_decimal(&mut s, *found);
                push_text(&mut s, ", expected ");
                push_decimal(&mut s, *expected);
                assert(s@ =~= self.text());
                s
            },
            InterpolateError::GridTransformDomain(f) => fmt_outside_domain(f.as_slice()),
            InterpolateError::Other(m) => m.clone(),
        }
    }
}

} // verus!
