//! Fixed-shape integer matrices and the row-vector dot product.
use vstd::prelude::*;

use crate::arith::{lemma_wrap_add, lemma_wrap_in_range, lemma_wrapping_add, lemma_wrapping_mul, wrap_i32};

verus! {

/// Why a dot product could not be taken.
#[derive(Debug, Clone, Copy, PartialEq, Eq, Structural)]
pub enum DimensionError {
    /// The receiver is not a single row; carries its height.
    NotRowVector { height: usize },
    /// The two rows differ in length; carries both widths.
    LengthMismatch { self_width: usize, other_width: usize },
}

/// `Σ_{i < n} a[i] * b[i]`, computed exactly.
pub open spec fn sum_of_products(a: Seq<i32>, b: Seq<i32>, n: nat) -> int
    decreases n,
{
    if n == 0 {
        0
    } else {
        sum_of_products(a, b, (n - 1) as nat) + a[n - 1] * b[n - 1]
    }
}

/// The sum of products does not depend on the order of the operands.
pub proof fn lemma_sum_of_products_commutes(a: Seq<i32>, b: Seq<i32>, n: nat)
    ensures
        sum_of_products(a, b, n) == sum_of_products(b, a, n),
    decreases n,
{
    if n > 0 {
        lemma_sum_of_products_commutes(a, b, (n - 1) as nat);
        assert(a[n - 1] * b[n - 1] == b[n - 1] * a[n - 1]) by (nonlinear_arith);
    }
}

/// An immutable grid of `H` rows, each of `W` signed integers.
#[derive(Debug)]
pub struct Matrix<const W: usize, const H: usize> {
    values: [[i32; W]; H],
}

impl<const W: usize, const H: usize> Matrix<W, H> {
    /// The grid that the matrix holds.
    pub closed spec fn grid(&self) -> [[i32; W]; H] {
        self.values
    }

    /// Row `i` of the grid as a sequence.
    pub open spec fn row(&self, i: int) -> Seq<i32> {
        self.grid()@[i]@
    }

    /// The number of columns.
    pub open spec fn width(&self) -> nat {
        W as nat
    }

    /// The number of rows.
    pub open spec fn height(&self) -> nat {
        H as nat
    }

    /// The matrix that holds `values`.
    pub closed spec fn from_grid(values: [[i32; W]; H]) -> Self {
        Matrix { values }
    }

    /// The exact sum of the products of the first rows of `self` and `other`.
    pub open spec fn exact_dot(&self, other: &Matrix<W, 1>) -> int {
        sum_of_products(self.row(0), other.row(0), W as nat)
    }

    /// What `dot_product` returns: an error when `self` is not a row
    /// vector or the lengths differ, else the wrapped sum of products.
    pub open spec fn dot_result(&self, other: &Matrix<W, 1>) -> Result<i32, DimensionError> {
        if self.height() != 1 {
            Err(DimensionError::NotRowVector { height: H })
        } else if other.width() != self.width() {
            Err(DimensionError::LengthMismatch { self_width: W, other_width: W })
        } else {
            Ok(wrap_i32(self.exact_dot(other)))
        }
    }

    /// Builds the matrix that holds `values`.
    pub fn new(values: [[i32; W]; H]) -> (r: Self)
        ensures
            r == Self::from_grid(values),
            r.grid() == values,
    {
        Matrix { values }
    }

    /// The number of columns.
    pub fn get_width(&self) -> (r: usize)
        ensures
            r == self.width(),
    {
        W
    }

    /// The number of rows.
    pub fn get_height(&self) -> (r: usize)
        ensures
            r == self.height(),
    {
        H
    }

    /// A copy of the grid.
    pub fn get_values(&self) -> (r: [[i32; W]; H])
        ensures
            r == self.grid(),
    {
        self.values
    }

    /// The dot product of two row vectors, in wrapping `i32` arithmetic.
    ///
    /// Fails when `self` has more or fewer than one row; then when the
    /// lengths differ, which the shared width `W` rules out.
    pub fn dot_product(&self, other: &Matrix<W, 1>) -> (r: Result<i32, DimensionError>)
        ensures
            r == self.dot_result(other),
    {
        if self.get_height() != 1 {
            Err(DimensionError::NotRowVector { height: self.get_height() })
        } else if other.get_width() != self.get_width() {
            Err(DimensionError::LengthMismatch {
                self_width: self.get_width(),
                other_width: other.get_width(),
            })
        } else {
            let self_row: &[i32; W] = &self.values[0];
            let other_row: &[i32; W] = &other.values[0];
            let width: usize = self.get_width();
            let mut sum: i32 = 0;
            for i in 0..width
                invariant
                    H == 1,
                    width == W,
                    self_row@ == self.row(0),
                    other_row@ == other.row(0),
                    sum == wrap_i32(sum_of_products(self_row@, other_row@, i as nat)),
            {
                let product: i32 = self_row[i].wrapping_mul(other_row[i]);
                proof {
                    let a = self_row@;
                    let b = other_row@;
                    let prev = sum_of_products(a, b, i as nat);
                    lemma_wrapping_mul(a[i as int], b[i as int]);
                    lemma_wrapping_add(sum, product);
                    lemma_wrap_add(prev, a[i as int] * b[i as int]);
                    assert(sum_of_products(a, b, (i + 1) as nat) == prev + a[i as int] * b[i as int]);
                }
                sum = sum.wrapping_add(product);
            }
            Ok(sum)
        }
    }

    /// Building a matrix from a grid and reading its values back gives
    /// that grid, element for element.
    pub proof fn lemma_construction_keeps_grid(values: [[i32; W]; H])
        ensures
            Self::from_grid(values).grid() == values,
    {
    }

    /// For two row vectors of equal length, the dot product is the sum of
    /// the products of their entries whenever that sum fits in `i32`.
    pub proof fn lemma_dot_product_is_sum_of_products(a: Matrix<W, 1>, b: Matrix<W, 1>)
        requires
            i32::MIN <= a.exact_dot(&b) <= i32::MAX,
        ensures
            a.dot_result(&b) == Ok::<i32, DimensionError>(a.exact_dot(&b) as i32),
    {
        lemma_wrap_in_range(a.exact_dot(&b));
    }

    /// The dot product of two row vectors of equal length commutes.
    pub proof fn lemma_dot_product_commutes(a: Matrix<W, 1>, b: Matrix<W, 1>)
        ensures
            a.dot_result(&b) == b.dot_result(&a),
    {
        lemma_sum_of_products_commutes(a.row(0), b.row(0), W as nat);
    }

    /// A receiver that is not a single row is refused, whatever the entries
    /// of either operand, and the error carries its height.
    pub proof fn lemma_dot_product_rejects_non_row(m: Matrix<W, H>, other: Matrix<W, 1>)
        requires
            m.height() != 1,
        ensures
            m.dot_result(&other) == Err::<i32, DimensionError>(
                DimensionError::NotRowVector { height: H },
            ),
    {
    }

    /// The dot product fails exactly when the receiver is not a single row
    /// or the two lengths differ, whatever the heights and entries.
    pub proof fn lemma_dot_product_fails_iff(m: Matrix<W, H>, other: Matrix<W, 1>)
        ensures
            m.dot_result(&other) is Err <==> (m.height() != 1 || other.width() != m.width()),
    {
    }
}

} // verus!
