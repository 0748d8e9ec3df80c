//! `MTLCullMode` raw values.
use vstd::prelude::*;

verus! {

pub const NONE: usize = 0;
pub const FRONT: usize = 1;
pub const BACK: usize = 2;

} // verus!
