//! Error types for data validation and interpolation calls.

use vstd::prelude::*;

verus! {

/// A coordinate transform applied by a transforming strategy; named in domain errors.
#[derive(Debug, Clone, Copy, PartialEq, Eq)]
pub enum Transform {
    /// Natural logarithm: defined for positive coordinates.
    Log,
    /// Reciprocal `1 / x`: defined for nonzero coordinates.
    Reciprocal,
}

/// Error in interpolator data validation.
#[derive(Debug, Clone, PartialEq)]
#[non_exhaustive]
pub enum ValidateError {
    /// The strategy does not allow extrapolation, so `Extrapolate::Enable` is refused.
    ExtrapolateUnsupported,
    /// A grid axis has fewer than the 2 points every strategy needs; carries the axis.
    InsufficientGridPoints(usize),
    /// A grid axis is not strictly increasing; carries the axis.
    NotStrictlyIncreasing(usize),
    /// A grid axis is not uniformly spaced, as a uniform-grid strategy requires.
    NonUniform {
        /// The axis that is not uniformly spaced.
        dim: usize,
        /// The first coordinate whose following interval differs from the first interval.
        index: usize,
    },
    /// The grid and the values do not have compatible shapes; carries the axis.
    IncompatibleShapes(usize),
    /// The number of grid axes does not match the dimensionality of the values.
    GridAxisCount {
        /// Number of axes the values require.
        expected: usize,
        /// Number of grid axes supplied.
        found: usize,
    },
    /// A per-axis strategy setting has neither one entry nor one per axis.
    PerAxisLen {
        /// Name of the strategy, e.g. `"Step"`.
        label: &'static str,
        /// What is being counted, e.g. `"directions"`.
        noun: &'static str,
        /// The interpolator's dimensionality.
        ndim: usize,
        /// How many entries were supplied.
        found: usize,
    },
    /// A grid coordinate lies outside a grid transform's domain.
    GridTransformDomain {
        /// The transform whose domain was violated.
        transform: Transform,
        /// The axis of the offending coordinate.
        dim: usize,
        /// The offending coordinate's position on its axis.
        index: usize,
    },
    /// A grid axis is not monotonic under a grid transform.
    GridTransformNotMonotonic {
        /// The transform under which the axis is not monotonic.
        transform: Transform,
        /// The axis that is not monotonic.
        dim: usize,
        /// The first position where the transformed direction breaks.
        index: usize,
    },
    /// A data value lies outside a values transform's domain.
    ValuesTransformDomain {
        /// The transform whose domain was violated.
        transform: Transform,
        /// The offending element's position in the values.
        index: Vec<usize>,
    },
    /// A condition this crate does not model, chiefly from custom strategies.
    Other(String),
}

/// Error in an interpolation call.
#[derive(Debug, Clone, PartialEq)]
#[non_exhaustive]
pub enum InterpolateError {
    /// One entry per coordinate that fell outside the grid with `Extrapolate::Error`.
    OutOfBounds(Vec<OutOfBoundsAt>),
    /// One entry per point whose length did not match the interpolator's dimensionality.
    PointLength {
        /// The dimensionality every point must match.
        expected: usize,
        /// One entry per point with the wrong length.
        failures: Vec<WrongLengthAt>,
    },
    /// The output slice of a batch call does not have one slot per point.
    OutputLength {
        /// The number of points.
        expected: usize,
        /// The length of the output slice.
        found: usize,
    },
    /// One entry per point coordinate outside its axis transform's domain.
    GridTransformDomain(Vec<OutsideDomainAt>),
    /// A condition this crate does not model, chiefly from custom strategies.
    Other(String),
}

/// Where a query point left the grid, in [`InterpolateError::OutOfBounds`].
#[derive(Debug, Clone, Copy, PartialEq, Eq)]
#[non_exhaustive]
pub struct OutOfBoundsAt {
    /// Position of the point within the batch, or 0 for a single-point call.
    pub index: usize,
    /// Dimension whose bounds the point exceeded.
    pub dim: usize,
}

/// A misshapen query point, in [`InterpolateError::PointLength`].
#[derive(Debug, Clone, Copy, PartialEq, Eq)]
#[non_exhaustive]
pub struct WrongLengthAt {
    /// Position of the point within the batch, or 0 for a single-point call.
    pub index: usize,
    /// The length the point actually had.
    pub found: usize,
}

/// A query point coordinate outside its axis transform's domain, in
/// [`InterpolateError::GridTransformDomain`].
#[derive(Debug, Clone, Copy, PartialEq)]
#[non_exhaustive]
pub struct OutsideDomainAt {
    /// Position of the point within the batch, or 0 for a single-point call.
    pub index: usize,
    /// Dimension whose transform domain the coordinate violated.
    pub dim: usize,
    /// The transform whose domain was violated.
    pub transform: Transform,
}

impl OutOfBoundsAt {
    /// Record that point `index` left the grid in dimension `dim`.
    pub fn new(index: usize, dim: usize) -> (r: Self)
        ensures
            r.index == index,
            r.dim == dim,
    {
        OutOfBoundsAt { index, dim }
    }
}

impl WrongLengthAt {
    /// Record that point `index` had length `found`.
    pub fn new(index: usize, found: usize) -> (r: Self)
        ensures
            r.index == index,
            r.found == found,
    {
        WrongLengthAt { index, found }
    }
}

impl OutsideDomainAt {
    /// Record that coordinate `dim` of point `index` lies outside `transform`'s domain.
    pub fn new(index: usize, dim: usize, transform: Transform) -> (r: Self)
        ensures
            r.index == index,
            r.dim == dim,
            r.transform == transform,
    {
        OutsideDomainAt { index, dim, transform }
    }
}

} // verus!
