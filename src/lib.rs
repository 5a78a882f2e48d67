//! A perceptron over fixed-shape integer matrices.
//!
//! `Matrix<W, H>` is an immutable grid of `H` rows of `W` signed integers,
//! and `Perceptron<N>` combines a `1 x N` weight row with a bias.
//! Arithmetic is two's-complement `i32` arithmetic: every result is the
//! exact mathematical value wrapped into the `i32` range.
pub mod arith;
pub mod matrix;
pub mod perceptron;

pub use matrix::{DimensionError, Matrix};
pub use perceptron::Perceptron;
