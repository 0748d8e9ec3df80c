//! `MPSAccelerationStructureStatus` raw values.
use vstd::prelude::*;

verus! {

pub const UNBUILT: usize = 0;
pub const BUILT: usize = 1;

} // verus!
