//! Exact 3-dimensional vector arithmetic.
//!
//! The library provides a single value type, [`vec3::Vec3`], holding three
//! signed integer components, together with the standard linear-algebra
//! operations on it: componentwise addition and subtraction, scalar
//! multiplication and division, dot and cross products, inversion,
//! magnitude (an integer square root of the squared norm) and
//! normalization.  Division by zero is the one failure mode and is
//! signalled by an absent value, never by a panic.

pub mod arith;
pub mod laws;
pub mod vec3;
