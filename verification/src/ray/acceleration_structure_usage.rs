//! `MPSAccelerationStructureUsage` bit flags.
use vstd::prelude::*;

verus! {

pub const NONE: usize = 0;
pub const REFIT: usize = 1;
pub const FREQUENT_REBUILD: usize = 2;
pub const PREFER_GPU_BUILD: usize = 4;
pub const PREFER_CPU_BUILD: usize = 8;

} // verus!
