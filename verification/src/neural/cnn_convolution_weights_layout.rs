//! `MPSCNNConvolutionWeightsLayout` raw values.
use vstd::prelude::*;

verus! {

pub const OHWI: u32 = 0;

} // verus!
