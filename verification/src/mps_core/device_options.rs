//! `MPSDeviceOptions` bit flags.
use vstd::prelude::*;

verus! {

pub const DEFAULT: usize = 0;
pub const LOW_POWER: usize = 1;
pub const SKIP_REMOVABLE: usize = 2;

} // verus!
