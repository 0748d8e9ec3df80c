//! `MPSKernelOptions` bit flags.
use vstd::prelude::*;

verus! {

pub const NONE: u32 = 0;
pub const SKIP_API_VALIDATION: u32 = 1;
pub const ALLOW_REDUCED_PRECISION: u32 = 2;
pub const DISABLE_INTERNAL_TILING: u32 = 4;
pub const INSERT_DEBUG_GROUPS: u32 = 8;
pub const VERBOSE: u32 = 16;

} // verus!
