//! Exact two-dimensional projective geometric algebra (PGA2D).
//!
//! Multivectors over the eight-blade basis `1, e0, e1, e2, e12, e20, e01, e012`
//! with exact 64-bit integer coefficients, together with the duality and
//! rigid-motion operators built on them and a separating-axis collision test
//! expressed entirely in the algebra.  The component order and the product
//! rule are the Cayley table of the signature with one null and two
//! Euclidean generators.

pub mod collision;
pub mod laws;
pub mod shapes;
pub mod pga;
