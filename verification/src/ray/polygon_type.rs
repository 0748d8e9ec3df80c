//! `MPSPolygonType` raw values.
use vstd::prelude::*;

verus! {

pub const TRIANGLE: usize = 0;
pub const QUADRILATERAL: usize = 1;

} // verus!
