//! `MTLWinding` raw values.
use vstd::prelude::*;

verus! {

pub const CLOCKWISE: usize = 0;
pub const COUNTER_CLOCKWISE: usize = 1;

} // verus!
