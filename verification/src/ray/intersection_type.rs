//! `MPSIntersectionType` raw values.
use vstd::prelude::*;

verus! {

pub const NEAREST: usize = 0;
pub const ANY: usize = 1;

} // verus!
