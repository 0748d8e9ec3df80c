//! `MPSImageEdgeMode` raw values.
use vstd::prelude::*;

verus! {

pub const ZERO: usize = 0;
pub const CLAMP: usize = 1;

} // verus!
