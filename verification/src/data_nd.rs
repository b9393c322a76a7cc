//! Interpolator data whose number of axes is known only at run time: one coordinate
//! vector per axis and an array of function values of matching shape.

use vstd::prelude::*;
use crate::error::ValidateError;
use crate::order::{is_strictly_increasing, obeys_order, strictly_increasing};

verus! {

/// The number of elements of an array of shape `shape`: the product of its extents.
pub open spec fn product(shape: Seq<usize>) -> nat
    decreases shape.len(),
{
    if shape.len() == 0 {
        1
    } else {
        product(shape.drop_last()) * shape.last() as nat
    }
}

/// Function values over any number of axes: a shape and its elements, outermost axis
/// first. The number of elements is always the product of the extents.
#[derive(Debug, PartialEq)]
pub struct ValuesND<T> {
    shape: Vec<usize>,
    elems: Vec<T>,
}

impl<T> ValuesND<T> {
    /// The extents of the axes.
    pub closed spec fn dims(&self) -> Seq<usize> {
        self.shape@
    }

    /// The elements, outermost axis first.
    pub closed spec fn items(&self) -> Seq<T> {
        self.elems@
    }

    /// The number of axes fits in a `usize`.
    pub proof fn lemma_dims_bounded(&self)
        ensures
            self.dims().len() <= usize::MAX,
    {
        assert(self.shape.len() == self.shape@.len());
    }

    #[verifier::type_invariant]
    spec fn well_formed(&self) -> bool {
        self.elems@.len() == product(self.shape@)
    }

    /// Values of shape `shape` holding `elems`, outermost axis first; `None` when the
    /// number of elements is not the product of the extents.
    pub fn from_shape_vec(shape: Vec<usize>, elems: Vec<T>) -> (r: Option<Self>)
        ensures
            r is Some <==> elems@.len() == product(shape@),
            r matches Some(v) ==> v.dims() == shape@ && v.items() == elems@,
    {
        let total: usize = elems.len();
        let mut i: usize = 0;
        while i < shape.len()
            invariant
                i <= shape@.len(),
                forall|j: int| 0 <= j < i ==> shape@[j] != 0,
            decreases shape@.len() - i,
        {
            if shape[i] == 0 {
                proof {
                    lemma_product_zero(shape@, i as int);
                }
                if elems.len() == 0 {
                    return Some(ValuesND { shape, elems });
                }
                return None;
            }
            i = i + 1;
        }
        let mut count: usize = 1;
        let mut i: usize = 0;
        while i < shape.len()
            invariant
                i <= shape@.len(),
                forall|j: int| 0 <= j < shape@.len() ==> shape@[j] != 0,
                count == product(shape@.take(i as int)),
                total == elems@.len(),
            decreases shape@.len() - i,
        {
            assert(shape@.take(i + 1).drop_last() =~= shape@.take(i as int));
            match count.checked_mul(shape[i]) {
                Some(c) => {
                    count = c;
                },
                None => {
                    proof {
                        assert(shape@.take(i + 1).last() == shape@[i as int]);
                        assert(product(shape@.take(i + 1)) == count * shape@[i as int]);
                        lemma_product_grows(shape@, i as int + 1);
                        assert(count * shape@[i as int] > usize::MAX);
                        assert(product(shape@) > usize::MAX);
                    }
                    return None;
                },
            }
            i = i + 1;
        }
        assert(shape@.take(shape@.len() as int) =~= shape@);
        if count == total {
            Some(ValuesND { shape, elems })
        } else {
            None
        }
    }

    /// The extents of the axes.
    pub fn shape(&self) -> (r: &Vec<usize>)
        ensures
            r@ == self.dims(),
    {
        &self.shape
    }

    /// The elements, outermost axis first.
    pub fn elems(&self) -> (r: &Vec<T>)
        ensures
            r@ == self.items(),
    {
        &self.elems
    }

    /// The number of elements.
    pub fn len(&self) -> (r: usize)
        ensures
            r == self.items().len(),
            r == product(self.dims()),
    {
        proof {
            use_type_invariant(self);
        }
        self.elems.len()
    }

    /// The number of axes.
    pub fn ndim(&self) -> (r: usize)
        ensures
            r == self.dims().len(),
    {
        self.shape.len()
    }
}

impl<T: Clone> Clone for ValuesND<T> {
    fn clone(&self) -> (r: Self) {
        proof {
            use_type_invariant(self);
        }
        ValuesND { shape: self.shape.clone(), elems: self.elems.clone() }
    }
}

/// A zero extent makes the product zero.
proof fn lemma_product_zero(shape: Seq<usize>, j: int)
    requires
        0 <= j < shape.len(),
        shape[j] == 0,
    ensures
        product(shape) == 0,
    decreases shape.len(),
{
    let rest = product(shape.drop_last());
    if j < shape.len() - 1 {
        assert(shape.drop_last()[j] == 0);
        lemma_product_zero(shape.drop_last(), j);
        assert(rest == 0);
    } else {
        assert(shape.last() == 0);
    }
    assert(rest * shape.last() as nat == 0) by (nonlinear_arith)
        requires
            rest == 0 || shape.last() == 0,
    ;
}

/// Without zero extents, the product of a prefix of the extents is at most the
/// product of all of them.
pub proof fn lemma_product_grows(shape: Seq<usize>, k: int)
    requires
        0 <= k <= shape.len(),
        forall|j: int| 0 <= j < shape.len() ==> shape[j] != 0,
    ensures
        product(shape.take(k)) <= product(shape),
    decreases shape.len() - k,
{
    if k < shape.len() {
        lemma_product_grows(shape, k + 1);
        assert(shape.take(k + 1).drop_last() =~= shape.take(k));
        let p = product(shape.take(k));
        let e = shape[k] as nat;
        assert(p <= p * e) by (nonlinear_arith)
            requires
                e >= 1,
        ;
    } else {
        assert(shape.take(k) =~= shape);
    }
}

/// Interpolator data with a number of axes known only at run time.
#[derive(Debug, Clone, PartialEq)]
pub struct InterpDataNDBase<T> {
    /// Coordinate grid: one coordinate vector per axis.
    pub grid: Vec<Vec<T>>,
    /// Function values at the grid points.
    pub values: ValuesND<T>,
}

/// N-D interpolator data (owned).
pub type InterpDataND<T> = InterpDataNDBase<T>;

impl<T: PartialOrd> InterpDataNDBase<T> {
    /// Dimensionality: `0` for a single value, otherwise the number of axes of the
    /// values.
    pub open spec fn dims(&self) -> nat {
        if self.values.items().len() == 1 {
            0
        } else {
            self.values.dims().len()
        }
    }

    /// What validation reports for axis `d`, if anything: too few points, then
    /// coordinates that are not strictly increasing, then a values extent that differs
    /// from the axis length.
    pub open spec fn axis_error(&self, d: int) -> Option<ValidateError> {
        let g = self.grid@[d]@;
        if g.len() < 2 {
            Some(ValidateError::InsufficientGridPoints(d as usize))
        } else if !strictly_increasing(g) {
            Some(ValidateError::NotStrictlyIncreasing(d as usize))
        } else if g.len() != self.values.dims()[d] {
            Some(ValidateError::IncompatibleShapes(d as usize))
        } else {
            None
        }
    }

    /// Validation outcome for the axes from `d` below `n`: the error of the first failing
    /// axis.
    pub open spec fn axes_validation(&self, d: int, n: int) -> Result<(), ValidateError>
        decreases n - d,
    {
        if d >= n {
            Ok(())
        } else {
            match self.axis_error(d) {
                Some(e) => Err(e),
                None => self.axes_validation(d + 1, n),
            }
        }
    }

    /// The grid has one axis per dimension, or the data is a single value and every
    /// grid axis is empty.
    pub open spec fn axis_count_ok(&self) -> bool {
        ||| self.grid@.len() == self.dims()
        ||| (self.dims() == 0 && forall|i: int| 0 <= i < self.grid@.len() ==> (#[trigger] self.grid@[i])@.len() == 0)
    }

    /// Validation outcome: a grid axis count that does not match the dimensionality,
    /// then the error of the first failing axis, or `Ok`.
    pub open spec fn validation(&self) -> Result<(), ValidateError> {
        if !self.axis_count_ok() {
            Err(
                ValidateError::GridAxisCount {
                    expected: self.dims() as usize,
                    found: self.grid@.len() as usize,
                },
            )
        } else {
            self.axes_validation(0, self.dims() as int)
        }
    }

    /// Dimensionality: `0` for a single value, otherwise the number of axes of the
    /// values.
    pub fn ndim(&self) -> (r: usize)
        ensures
            r == self.dims(),
    {
        if self.values.len() == 1 {
            0
        } else {
            self.values.ndim()
        }
    }

    /// Coordinates of axis `d`.
    pub open spec fn coords(&self, d: int) -> Seq<T> {
        self.grid@[d]@
    }

    /// The shape the interpolating code relies on: one grid axis per dimension (or only
    /// empty ones for a single value), values with one axis per dimension, and at least
    /// two coordinates on each axis, as many as the values have along it.
    pub open spec fn shaped(&self) -> bool {
        &&& self.axis_count_ok()
        &&& self.values.dims().len() == self.dims()
        &&& forall|d: int|
            0 <= d < self.dims() ==> (#[trigger] self.coords(d)).len() >= 2 && self.coords(d).len()
                == self.values.dims()[d]
    }

    /// Shaped data whose axes are strictly increasing.
    pub open spec fn valid(&self) -> bool {
        &&& self.shaped()
        &&& forall|d: int| 0 <= d < self.dims() ==> strictly_increasing(#[trigger] self.coords(d))
    }

    /// Validation passes on data whose values have one axis per dimension exactly when
    /// the data is valid.
    pub proof fn lemma_validation_valid(&self)
        requires
            self.values.dims().len() == self.dims(),
        ensures
            self.validation() is Ok <==> self.valid(),
    {
        let n = self.dims() as int;
        if self.validation() is Ok {
            self.lemma_axes_ok(0, n);
            assert forall|d: int| 0 <= d < n implies (#[trigger] self.coords(d)).len() >= 2 && self.coords(d).len()
                == self.values.dims()[d] && strictly_increasing(self.coords(d)) by {
                assert(self.axis_error(d) is None);
            }
        }
        if self.valid() {
            self.lemma_axes_valid(0, n);
        }
    }

    /// Passing validation from axis `a` on leaves no error on any later axis.
    proof fn lemma_axes_ok(&self, a: int, n: int)
        requires
            0 <= a <= n,
            self.axes_validation(a, n) is Ok,
        ensures
            forall|d: int| a <= d < n ==> (#[trigger] self.axis_error(d)) is None,
        decreases n - a,
    {
        if a < n {
            self.lemma_axes_ok(a + 1, n);
        }
    }

    /// Valid data passes validation from every axis on.
    proof fn lemma_axes_valid(&self, a: int, n: int)
        requires
            0 <= a <= n,
            n == self.dims(),
            self.valid(),
        ensures
            self.axes_validation(a, n) is Ok,
        decreases n - a,
    {
        if a < n {
            self.lemma_axes_valid(a + 1, n);
            assert(strictly_increasing(self.coords(a)));
        }
    }

    /// Validate the data: one grid axis per dimension, and along each axis at least 2
    /// strictly increasing coordinates, as many as the values have along that axis.
    pub fn validate(&self) -> (r: Result<(), ValidateError>)
        ensures
            obeys_order::<T>() ==> r == self.validation(),
            r is Ok ==> self.axis_count_ok(),
            r is Ok ==> forall|d: int|
                0 <= d < self.dims() ==> (#[trigger] self.grid@[d])@.len() >= 2 && self.grid@[d]@.len()
                    == self.values.dims()[d],
            r is Ok && self.values.dims().len() == self.dims() ==> self.shaped(),
    {
        let n = self.ndim();
        if self.grid.len() != n {
            let mut all_empty = n == 0;
            let mut i: usize = 0;
            while i < self.grid.len() && all_empty
                invariant
                    i <= self.grid@.len(),
                    all_empty ==> n == 0 && forall|k: int| 0 <= k < i ==> (#[trigger] self.grid@[k])@.len() == 0,
                    !all_empty ==> !self.axis_count_ok(),
                    n == self.dims(),
                    self.grid@.len() != n,
                decreases self.grid@.len() - i,
            {
                if self.grid[i].len() != 0 {
                    all_empty = false;
                }
                i = i + 1;
            }
            if !all_empty {
                return Err(ValidateError::GridAxisCount { expected: n, found: self.grid.len() });
            }
        }
        assert(self.axis_count_ok());
        if n > 0 {
            assert(self.grid@.len() == n);
        }
        let mut d: usize = 0;
        while d < n
            invariant
                d <= n,
                n == self.dims(),
                self.axis_count_ok(),
                n > 0 ==> self.grid@.len() == n,
                n > 0 ==> self.values.dims().len() == n,
                obeys_order::<T>() ==> self.axes_validation(0, n as int) == self.axes_validation(d as int, n as int),
                forall|k: int|
                    0 <= k < d ==> (#[trigger] self.grid@[k])@.len() >= 2 && self.grid@[k]@.len()
                        == self.values.dims()[k],
            decreases n - d,
        {
            let g = &self.grid[d];
            let len = g.len();
            if len < 2 {
                return Err(ValidateError::InsufficientGridPoints(d));
            }
            if !is_strictly_increasing(g) {
                return Err(ValidateError::NotStrictlyIncreasing(d));
            }
            if len != self.values.shape()[d] {
                return Err(ValidateError::IncompatibleShapes(d));
            }
            proof {
                if obeys_order::<T>() {
                    assert(self.axis_error(d as int) is None);
                }
            }
            d = d + 1;
        }
        Ok(())
    }

    /// Construct and validate N-D data.
    pub fn new(grid: Vec<Vec<T>>, values: ValuesND<T>) -> (r: Result<Self, ValidateError>)
        ensures
            r matches Ok(d) ==> d.grid == grid && d.values == values && d.axis_count_ok(),
            r matches Ok(d) ==> (d.values.dims().len() == d.dims() ==> d.shaped()),
            obeys_order::<T>() ==> match r {
                Ok(_) => (InterpDataNDBase { grid, values }).validation() is Ok,
                Err(e) => (InterpDataNDBase { grid, values }).validation() == Err::<(), ValidateError>(e),
            },
    {
        let data = InterpDataNDBase { grid, values };
        match data.validate() {
            Ok(()) => Ok(data),
            Err(e) => Err(e),
        }
    }

    /// View the data: a borrow of the same data.
    pub fn view(&self) -> (r: &Self)
        ensures
            *r == *self,
    {
        self
    }

    /// Turn the data into its owned form; it is owned already.
    pub fn into_owned(self) -> (r: Self)
        ensures
            r == self,
    {
        self
    }
}

} // verus!
