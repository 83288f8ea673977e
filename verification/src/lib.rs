//! A generic complex-number value type whose arithmetic is stated over the
//! scalar type's own operator specifications and proved against them.
//!
//! - [`complex`]: the type, its constructors and accessors.
//! - [`convert`]: conversion from a pair and from a scalar.
//! - [`arith`]: `+`, `-`, `*`, `/` with a complex or a scalar operand, and
//!   unary `-`.
//! - [`assign`]: `+=`, `-=`, `*=`, `/=`.
//! - [`text`]: the debug text `(real, imaginaryi)`.
//! - [`laws`]: what holds of the arithmetic over any scalar that meets the
//!   stated conditions.
//! - [`integer`]: the integer facts behind division.
//! - [`scalar`]: the machine integer types, read in the integers.
//! - [`integer_laws`]: the laws over every machine integer type, read in the
//!   integers.

pub mod complex;
pub mod convert;
pub mod arith;
pub mod assign;
pub mod text;
pub mod laws;
pub mod integer;
pub mod scalar;
pub mod integer_laws;

pub use complex::Complex;
