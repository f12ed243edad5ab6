//! Affine maps and integer sets.

pub mod affine_map;
pub mod integer_set;

pub use affine_map::AffineMap;
pub use integer_set::IntegerSet;
