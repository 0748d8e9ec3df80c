//! `MPSImageFeatureChannelFormat` raw values.
use vstd::prelude::*;

verus! {

pub const NONE: usize = 0;
pub const UNORM8: usize = 1;
pub const UNORM16: usize = 2;
pub const FLOAT16: usize = 3;
pub const FLOAT32: usize = 4;

} // verus!
