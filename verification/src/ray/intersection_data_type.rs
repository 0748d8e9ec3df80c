//! `MPSIntersectionDataType` raw values.
use vstd::prelude::*;

verus! {

pub const DISTANCE: usize = 0;
pub const DISTANCE_PRIMITIVE_INDEX: usize = 1;
pub const DISTANCE_PRIMITIVE_INDEX_COORDINATES: usize = 2;
pub const DISTANCE_PRIMITIVE_INDEX_INSTANCE_INDEX: usize = 3;
pub const DISTANCE_PRIMITIVE_INDEX_INSTANCE_INDEX_COORDINATES: usize = 4;
pub const DISTANCE_PRIMITIVE_INDEX_BUFFER_INDEX: usize = 5;
pub const DISTANCE_PRIMITIVE_INDEX_BUFFER_INDEX_COORDINATES: usize = 6;
pub const DISTANCE_PRIMITIVE_INDEX_BUFFER_INDEX_INSTANCE_INDEX: usize = 7;
pub const DISTANCE_PRIMITIVE_INDEX_BUFFER_INDEX_INSTANCE_INDEX_COORDINATES: usize = 8;

} // verus!
