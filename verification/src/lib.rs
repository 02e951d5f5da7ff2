//! Fixed-size tuples and vectors of integer scalars, with componentwise
//! arithmetic, indexing, iteration, absolute value, rounding, interpolation
//! and a dot product.
//!
//! Every scalar type stands for integers ([`numeric::Natural::value`]), and
//! every operation says over those integers when it may be applied and what
//! it yields.

pub mod abs;
pub mod assign;
pub mod ceil;
pub mod floor;
pub mod numeric;
pub mod tuple;
pub mod vector;
