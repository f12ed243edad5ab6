//! The scope in which expressions, maps and sets live.

use vstd::prelude::*;

verus! {

/// The owner of every expression, map and set created within it.
///
/// A value made in a context borrows it for the lifetime `'c`, so the
/// compiler rejects any use of the value after the context is gone.
#[derive(Debug)]
pub struct Context {}

impl Context {
    /// Opens a fresh context.
    pub fn new() -> (context: Self) {
        Context {}
    }
}

} // verus!
