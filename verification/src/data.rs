//! Interpolator data: a coordinate grid per axis and the function values on it.

use vstd::prelude::*;
use crate::error::ValidateError;
use crate::order::{obeys_order, strictly_increasing, is_strictly_increasing};

verus! {

/// A rectangular container of function values with `N` axes, one per grid dimension.
///
/// Implemented for `Vec<T>` (1 axis), `Vec<Vec<T>>` (2 axes) and `Vec<Vec<Vec<T>>>`
/// (3 axes), indexed outermost axis first.
pub trait Values<T, const N: usize>: Sized {
    /// The extent of axis `dim` is `len` throughout the container.
    spec fn dim_matches(&self, dim: int, len: int) -> bool;

    /// Whether the extent of axis `dim` is `len` throughout the container.
    fn check_dim(&self, dim: usize, len: usize) -> (r: bool)
        requires
            dim < N,
        ensures
            r == self.dim_matches(dim as int, len as int),
    ;
}

impl<T> Values<T, 1> for Vec<T> {
    open spec fn dim_matches(&self, dim: int, len: int) -> bool {
        dim == 0 && self@.len() == len
    }

    fn check_dim(&self, dim: usize, len: usize) -> (r: bool) {
        self.len() == len
    }
}

impl<T> Values<T, 2> for Vec<Vec<T>> {
    open spec fn dim_matches(&self, dim: int, len: int) -> bool {
        if dim == 0 {
            self@.len() == len
        } else if dim == 1 {
            forall|i: int| 0 <= i < self@.len() ==> #[trigger] self@[i]@.len() == len
        } else {
            false
        }
    }

    fn check_dim(&self, dim: usize, len: usize) -> (r: bool) {
        if dim == 0 {
            return self.len() == len;
        }
        let mut i: usize = 0;
        while i < self.len()
            invariant
                dim == 1,
                i <= self@.len(),
                forall|k: int| 0 <= k < i ==> #[trigger] self@[k]@.len() == len,
            decreases self@.len() - i,
        {
            if self[i].len() != len {
                return false;
            }
            i = i + 1;
        }
        true
    }
}

impl<T> Values<T, 3> for Vec<Vec<Vec<T>>> {
    open spec fn dim_matches(&self, dim: int, len: int) -> bool {
        if dim == 0 {
            self@.len() == len
        } else if dim == 1 {
            forall|i: int| 0 <= i < self@.len() ==> #[trigger] self@[i]@.len() == len
        } else if dim == 2 {
            forall|i: int, j: int|
                0 <= i < self@.len() && 0 <= j < self@[i]@.len() ==> #[trigger] self@[i]@[j]@.len()
                    == len
        } else {
            false
        }
    }

    fn check_dim(&self, dim: usize, len: usize) -> (r: bool) {
        if dim == 0 {
            return self.len() == len;
        }
        if dim == 1 {
            let mut i: usize = 0;
            while i < self.len()
                invariant
                    dim == 1,
                    i <= self@.len(),
                    forall|k: int| 0 <= k < i ==> #[trigger] self@[k]@.len() == len,
                decreases self@.len() - i,
            {
                if self[i].len() != len {
                    return false;
                }
                i = i + 1;
            }
            return true;
        }
        let mut i: usize = 0;
        while i < self.len()
            invariant
                dim == 2,
                i <= self@.len(),
                forall|a: int, b: int|
                    0 <= a < i && 0 <= b < self@[a]@.len() ==> #[trigger] self@[a]@[b]@.len()
                        == len,
            decreases self@.len() - i,
        {
            let row = &self[i];
            let mut j: usize = 0;
            while j < row.len()
                invariant
                    dim == 2,
                    i < self@.len(),
                    *row == self@[i as int],
                    j <= row@.len(),
                    forall|a: int, b: int|
                        0 <= a < i && 0 <= b < self@[a]@.len() ==> #[trigger] self@[a]@[b]@.len()
                            == len,
                    forall|b: int| 0 <= b < j ==> #[trigger] row@[b]@.len() == len,
                decreases row@.len() - j,
            {
                if row[j].len() != len {
                    return false;
                }
                j = j + 1;
            }
            i = i + 1;
        }
        true
    }
}

/// Interpolator data for an interpolator with `N` axes: `grid[d]` holds the
/// coordinates along axis `d`, and `values` the function value at every grid point.
#[derive(Debug, Clone, PartialEq)]
pub struct InterpDataBase<T, V, const N: usize> {
    /// Coordinate grid: one coordinate vector per axis (`[x]`, `[x, y]`, `[x, y, z]`).
    pub grid: [Vec<T>; N],
    /// Function values at the grid points, outermost axis first.
    pub values: V,
}

/// 1-D interpolator data.
pub type InterpData1DBase<T> = InterpDataBase<T, Vec<T>, 1>;

/// 2-D interpolator data.
pub type InterpData2DBase<T> = InterpDataBase<T, Vec<Vec<T>>, 2>;

/// 3-D interpolator data.
pub type InterpData3DBase<T> = InterpDataBase<T, Vec<Vec<Vec<T>>>, 3>;

/// 1-D interpolator data (owned).
pub type InterpData1D<T> = InterpData1DBase<T>;

/// 2-D interpolator data (owned).
pub type InterpData2D<T> = InterpData2DBase<T>;

/// 3-D interpolator data (owned).
pub type InterpData3D<T> = InterpData3DBase<T>;

impl<T: PartialOrd, V: Values<T, N>, const N: usize> InterpDataBase<T, V, N> {
    /// Coordinates along axis `d`.
    pub open spec fn axis(&self, d: int) -> Seq<T> {
        self.grid@[d]@
    }

    /// What validation reports for axis `d`, if anything: too few points, then
    /// coordinates that are not strictly increasing, then a values extent that differs
    /// from the axis length.
    pub open spec fn dim_error(&self, d: int) -> Option<ValidateError> {
        let g = self.axis(d);
        if g.len() < 2 {
            Some(ValidateError::InsufficientGridPoints(d as usize))
        } else if !strictly_increasing(g) {
            Some(ValidateError::NotStrictlyIncreasing(d as usize))
        } else if !self.values.dim_matches(d, g.len() as int) {
            Some(ValidateError::IncompatibleShapes(d as usize))
        } else {
            None
        }
    }

    /// Validation outcome for the axes from `d` on: the error of the first failing axis.
    pub open spec fn validation_from(&self, d: int) -> Result<(), ValidateError>
        decreases N - d,
    {
        if d >= N {
            Ok(())
        } else {
            match self.dim_error(d) {
                Some(e) => Err(e),
                None => self.validation_from(d + 1),
            }
        }
    }

    /// Validation outcome: the error of the first failing axis, or `Ok`.
    pub open spec fn validation(&self) -> Result<(), ValidateError> {
        self.validation_from(0)
    }

    /// The data passes validation.
    pub open spec fn valid(&self) -> bool {
        forall|d: int| 0 <= d < N ==> (#[trigger] self.dim_error(d)) is None
    }

    /// Every axis has at least 2 points and matches the extent of the values: the
    /// structural part of validity, which indexing relies on.
    pub open spec fn shaped(&self) -> bool {
        forall|d: int|
            0 <= d < N ==> (#[trigger] self.axis(d)).len() >= 2 && self.values.dim_matches(
                d,
                self.axis(d).len() as int,
            )
    }

    /// Validation succeeds exactly when every axis passes.
    pub proof fn lemma_validation_ok(&self)
        ensures
            self.validation() is Ok <==> self.valid(),
            self.valid() ==> self.validation() == Ok::<(), ValidateError>(()),
            self.valid() ==> self.shaped(),
    {
        self.lemma_validation_from(0);
        if self.valid() {
            assert forall|d: int| 0 <= d < N implies (#[trigger] self.axis(d)).len() >= 2
                && self.values.dim_matches(d, self.axis(d).len() as int) by {
                assert(self.dim_error(d) is None);
            }
        }
    }

    proof fn lemma_validation_from(&self, d: int)
        requires
            0 <= d <= N,
        ensures
            self.validation_from(d) is Ok <==> (forall|k: int| d <= k < N ==> (#[trigger] self.dim_error(k)) is None),
            (forall|k: int| d <= k < N ==> (#[trigger] self.dim_error(k)) is None) ==> self.validation_from(d) == Ok::<(), ValidateError>(()),
        decreases N - d,
    {
        if d < N {
            self.lemma_validation_from(d + 1);
        }
    }

    /// Axes below `d` pass, so validation starts over at `d`.
    proof fn lemma_validation_skip(&self, d: int)
        requires
            0 <= d <= N,
            forall|k: int| 0 <= k < d ==> (#[trigger] self.dim_error(k)) is None,
        ensures
            self.validation() == self.validation_from(d),
        decreases d,
    {
        if d > 0 {
            self.lemma_validation_skip_from(0, d);
        }
    }

    proof fn lemma_validation_skip_from(&self, a: int, d: int)
        requires
            0 <= a < d <= N,
            forall|k: int| 0 <= k < d ==> (#[trigger] self.dim_error(k)) is None,
        ensures
            self.validation_from(a) == self.validation_from(d),
        decreases d - a,
    {
        assert(self.dim_error(a) is None);
        if a + 1 < d {
            self.lemma_validation_skip_from(a + 1, d);
        }
    }

    /// Validate interpolator data: every axis needs at least 2 strictly increasing
    /// coordinates and as many as the values have along that axis.
    pub fn validate(&self) -> (r: Result<(), ValidateError>)
        ensures
            r is Ok ==> self.shaped(),
            obeys_order::<T>() ==> r == self.validation(),
    {
        let mut d: usize = 0;
        while d < N
            invariant
                d <= N,
                forall|k: int|
                    0 <= k < d ==> (#[trigger] self.axis(k)).len() >= 2 && self.values.dim_matches(
                        k,
                        self.axis(k).len() as int,
                    ),
                obeys_order::<T>() ==> forall|k: int| 0 <= k < d ==> (#[trigger] self.dim_error(k)) is None,
            decreases N - d,
        {
            let g = &self.grid[d];
            assert(g@ == self.axis(d as int));
            if g.len() < 2 {
                proof {
                    if obeys_order::<T>() {
                        self.lemma_validation_skip(d as int);
                    }
                }
                return Err(ValidateError::InsufficientGridPoints(d));
            }
            if !is_strictly_increasing(g) {
                proof {
                    if obeys_order::<T>() {
                        self.lemma_validation_skip(d as int);
                    }
                }
                return Err(ValidateError::NotStrictlyIncreasing(d));
            }
            if !self.values.check_dim(d, g.len()) {
                proof {
                    if obeys_order::<T>() {
                        self.lemma_validation_skip(d as int);
                    }
                }
                return Err(ValidateError::IncompatibleShapes(d));
            }
            proof {
                if obeys_order::<T>() {
                    assert(self.dim_error(d as int) is None);
                }
            }
            d = d + 1;
        }
        proof {
            if obeys_order::<T>() {
                assert(self.valid());
                self.lemma_validation_ok();
                assert(self.validation() == Ok::<(), ValidateError>(()));
            }
        }
        Ok(())
    }

    /// View interpolator data: a borrow of the same data.
    pub fn view(&self) -> (r: &Self)
        ensures
            *r == *self,
    {
        self
    }

    /// Turn the data into its owned form; the data is owned already.
    pub fn into_owned(self) -> (r: Self)
        ensures
            r == self,
    {
        self
    }
}

impl<T: PartialOrd> InterpData1DBase<T> {
    /// The 1-D data with coordinates `x` and values `f_x`.
    pub open spec fn from_parts(x: Vec<T>, f_x: Vec<T>) -> Self {
        InterpDataBase { grid: [x], values: f_x }
    }

    /// Construct and validate new 1-D data.
    pub fn new(x: Vec<T>, f_x: Vec<T>) -> (r: Result<Self, ValidateError>)
        ensures
            r matches Ok(d) ==> d == Self::from_parts(x, f_x) && d.shaped(),
            obeys_order::<T>() ==> match r {
                Ok(_) => Self::from_parts(x, f_x).validation() is Ok,
                Err(e) => Self::from_parts(x, f_x).validation() == Err::<(), ValidateError>(e),
            },
    {
        let data = InterpDataBase { grid: [x], values: f_x };
        match data.validate() {
            Ok(()) => Ok(data),
            Err(e) => Err(e),
        }
    }
}

impl<T: PartialOrd> InterpData2DBase<T> {
    /// The 2-D data with coordinates `x`, `y` and values `f_xy`.
    pub open spec fn from_parts(x: Vec<T>, y: Vec<T>, f_xy: Vec<Vec<T>>) -> Self {
        InterpDataBase { grid: [x, y], values: f_xy }
    }

    /// Construct and validate new 2-D data.
    pub fn new(x: Vec<T>, y: Vec<T>, f_xy: Vec<Vec<T>>) -> (r: Result<Self, ValidateError>)
        ensures
            r matches Ok(d) ==> d == Self::from_parts(x, y, f_xy) && d.shaped(),
            obeys_order::<T>() ==> match r {
                Ok(_) => Self::from_parts(x, y, f_xy).validation() is Ok,
                Err(e) => Self::from_parts(x, y, f_xy).validation() == Err::<(), ValidateError>(e),
            },
    {
        let data = InterpDataBase { grid: [x, y], values: f_xy };
        match data.validate() {
            Ok(()) => Ok(data),
            Err(e) => Err(e),
        }
    }
}

impl<T: PartialOrd> InterpData3DBase<T> {
    /// The 3-D data with coordinates `x`, `y`, `z` and values `f_xyz`.
    pub open spec fn from_parts(x: Vec<T>, y: Vec<T>, z: Vec<T>, f_xyz: Vec<Vec<Vec<T>>>) -> Self {
        InterpDataBase { grid: [x, y, z], values: f_xyz }
    }

    /// Construct and validate new 3-D data.
    pub fn new(x: Vec<T>, y: Vec<T>, z: Vec<T>, f_xyz: Vec<Vec<Vec<T>>>) -> (r: Result<
        Self,
        ValidateError,
    >)
        ensures
            r matches Ok(d) ==> d == Self::from_parts(x, y, z, f_xyz) && d.shaped(),
            obeys_order::<T>() ==> match r {
                Ok(_) => Self::from_parts(x, y, z, f_xyz).validation() is Ok,
                Err(e) => Self::from_parts(x, y, z, f_xyz).validation() == Err::<(), ValidateError>(
                    e,
                ),
            },
    {
        let data = InterpDataBase { grid: [x, y, z], values: f_xyz };
        match data.validate() {
            Ok(()) => Ok(data),
            Err(e) => Err(e),
        }
    }
}

} // verus!
