//! `MTLTextureUsage` bit flags.
use vstd::prelude::*;

verus! {

pub const SHADER_READ: usize = 0x01;
pub const SHADER_WRITE: usize = 0x02;
pub const RENDER_TARGET: usize = 0x04;
pub const PIXEL_FORMAT_VIEW: usize = 0x10;

} // verus!
