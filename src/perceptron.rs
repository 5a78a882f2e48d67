//! A single linear unit: a weight row, a bias, and their weighted sum.
use vstd::prelude::*;

use crate::arith::{lemma_wrap_in_range, lemma_wrapping_add, wrap_i32};
use crate::matrix::{DimensionError, Matrix};

verus! {

/// A linear unit over `N` inputs: a `1 x N` weight row and a bias.
#[derive(Debug)]
pub struct Perceptron<const N: usize> {
    weights: Matrix<N, 1>,
    bias: i32,
}

impl<const N: usize> Perceptron<N> {
    /// The weight row.
    pub closed spec fn weights(&self) -> Matrix<N, 1> {
        self.weights
    }

    /// The bias added to the weighted sum.
    pub closed spec fn bias(&self) -> i32 {
        self.bias
    }

    /// What `calculate_output` returns: the dot product of the weights and
    /// `inputs` plus the bias, wrapped into `i32`, or the dot product's error.
    pub open spec fn output_result(&self, inputs: &Matrix<N, 1>) -> Result<i32, DimensionError> {
        match self.weights().dot_result(inputs) {
            Ok(d) => Ok(wrap_i32(d + self.bias())),
            Err(e) => Err(e),
        }
    }

    /// Builds the unit from its weight row and bias.
    pub fn new(weights: Matrix<N, 1>, bias: i32) -> (r: Self)
        ensures
            r.weights() == weights,
            r.bias() == bias,
    {
        Perceptron { weights, bias }
    }

    /// The bias.
    pub fn get_bias(&self) -> (r: i32)
        ensures
            r == self.bias(),
    {
        self.bias
    }

    /// The weighted sum of `inputs` plus the bias, in wrapping `i32`
    /// arithmetic; a failing dot product's error is passed on unchanged.
    pub fn calculate_output(&self, inputs: &Matrix<N, 1>) -> (r: Result<i32, DimensionError>)
        ensures
            r == self.output_result(inputs),
    {
        match self.weights.dot_product(inputs) {
            Err(x) => Err(x),
            Ok(x) => {
                let bias: i32 = self.get_bias();
                proof {
                    lemma_wrapping_add(x, bias);
                }
                Ok(x.wrapping_add(bias))
            },
        }
    }

    /// The output is the dot product of the weights and the inputs plus the
    /// bias whenever the dot product succeeds (exactly so when that sum fits
    /// in `i32`); otherwise it is the dot product's error, unchanged.
    pub proof fn lemma_output_is_dot_plus_bias(p: Perceptron<N>, inputs: Matrix<N, 1>)
        ensures
            p.weights().dot_result(&inputs) matches Ok(d) ==> p.output_result(&inputs) == Ok::<
                i32,
                DimensionError,
            >(wrap_i32(d + p.bias())),
            p.weights().dot_result(&inputs) matches Ok(d) ==> (i32::MIN <= d + p.bias()
                <= i32::MAX ==> p.output_result(&inputs) == Ok::<i32, DimensionError>(
                (d + p.bias()) as i32,
            )),
            p.weights().dot_result(&inputs) is Err ==> p.output_result(&inputs)
                == p.weights().dot_result(&inputs),
    {
        if let Ok(d) = p.weights().dot_result(&inputs) {
            if i32::MIN <= d + p.bias() <= i32::MAX {
                lemma_wrap_in_range(d + p.bias());
            }
        }
    }
}

} // verus!
