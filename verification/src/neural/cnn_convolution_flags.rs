//! `MPSCNNConvolutionFlags` raw values.
use vstd::prelude::*;

verus! {

pub const NONE: usize = 0;

} // verus!
