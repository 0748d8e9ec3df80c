//! `MPSNNRegularizationType` raw values.
use vstd::prelude::*;

verus! {

pub const NONE: usize = 0;
pub const L1: usize = 1;
pub const L2: usize = 2;

} // verus!
