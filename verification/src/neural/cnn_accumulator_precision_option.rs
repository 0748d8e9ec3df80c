//! `MPSNNConvolutionAccumulatorPrecisionOption` raw values.
use vstd::prelude::*;

verus! {

pub const HALF: usize = 0;
pub const FLOAT: usize = 1;

} // verus!
