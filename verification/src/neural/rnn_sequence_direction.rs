//! `MPSRNNSequenceDirection` raw values.
use vstd::prelude::*;

verus! {

pub const FORWARD: usize = 0;
pub const BACKWARD: usize = 1;

} // verus!
