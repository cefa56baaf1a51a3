//! A three-component vector of IEEE 754 single-precision values, with its
//! comparison, selection and sign operations verified against the IEEE 754
//! encoding.
//!
//! Components are held as binary32 bit patterns. [`binary32`] gives each
//! pattern its meaning (the number it denotes, or NaN) and defines the
//! scalar operations on patterns; [`vector`] builds [`Vec3`] on top of it;
//! [`text`] lays out a vector's printed form.
//!
//! Everything here is exact: no operation rounds. Sums, products, quotients
//! and square roots round, and are left to whoever holds the components as
//! numbers.
pub mod binary32;
pub mod text;
pub mod vector;

pub use vector::{unanimous, vec3, Vec3};
