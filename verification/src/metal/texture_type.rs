//! `MTLTextureType` raw values.
use vstd::prelude::*;

verus! {

pub const TYPE_1D: usize = 0;
pub const TYPE_1D_ARRAY: usize = 1;
pub const TYPE_2D: usize = 2;
pub const TYPE_2D_ARRAY: usize = 3;
pub const TYPE_2D_MULTISAMPLE: usize = 4;
pub const CUBE: usize = 5;
pub const CUBE_ARRAY: usize = 6;
pub const TYPE_3D: usize = 7;
pub const TYPE_2D_MULTISAMPLE_ARRAY: usize = 8;
pub const TEXTURE_BUFFER: usize = 9;

} // verus!
