//! `MPSStateResourceType` raw values.
use vstd::prelude::*;

verus! {

pub const NONE: usize = 0;
pub const BUFFER: usize = 1;
pub const TEXTURE: usize = 2;

} // verus!
