//! `MPSDataLayout` raw values.
use vstd::prelude::*;

verus! {

#[allow(non_upper_case_globals)]
pub const HEIGHTxWIDTHxFEATURE_CHANNELS: usize = 0;
#[allow(non_upper_case_globals)]
pub const FEATURE_CHANNELSxHEIGHTxWIDTH: usize = 1;

} // verus!
