//! `MPSRayDataType` raw values.
use vstd::prelude::*;

verus! {

pub const ORIGIN_DIRECTION: usize = 0;
pub const ORIGIN_MIN_DISTANCE_DIRECTION_MAX_DISTANCE: usize = 1;
pub const ORIGIN_MASK_DIRECTION_MAX_DISTANCE: usize = 2;
pub const PACKED_ORIGIN_DIRECTION: usize = 3;

} // verus!
