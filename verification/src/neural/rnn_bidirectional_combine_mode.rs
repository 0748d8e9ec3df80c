//! `MPSRNNBidirectionalCombineMode` raw values.
use vstd::prelude::*;

verus! {

pub const NONE: usize = 0;
pub const ADD: usize = 1;
pub const CONCATENATE: usize = 2;

} // verus!
