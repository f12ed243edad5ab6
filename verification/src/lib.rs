//! Affine expressions, affine maps and integer sets as plain values.
//!
//! Every value is created within a [`context::Context`] and carries that
//! context's lifetime, so that no value outlives the scope it was made in.
//! Each operation states its result over a mathematical model of the value:
//! [`affine_expr::Expr`] for expressions, [`ir::affine_map::MapModel`] for
//! maps and [`ir::integer_set::SetModel`] for integer sets.

pub mod affine_expr;
pub mod context;
pub mod ir;
pub mod laws;
