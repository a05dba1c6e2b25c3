//! Complex numbers over a generic scalar.
//!
//! [`Complex<T>`] is a pair of scalars with the four arithmetic operators,
//! their in-place forms, the conjugate, the squared modulus and the polar
//! construction. Each operation asks of `T` only the operators that it uses,
//! and its contract is stated over the specification that `T` gives for
//! those operators: over the built-in integers every result is an exact
//! function of the operands.
//!
//! - [`complex`]: the type, its accessors, `conj`, `abs`, `polar` and
//!   `degrees_to_radians`.
//! - [`ops`]: `+`, `-`, `*` and `/`.
//! - [`ops_assign`]: `+=`, `-=`, `*=` and `/=`.
//! - [`scalar`]: the laws of a scalar that the laws of the numbers rest on.
//! - [`laws`]: the laws of the numbers.

pub mod complex;
pub mod laws;
pub mod ops;
pub mod ops_assign;
pub mod scalar;

pub use crate::complex::Complex;
