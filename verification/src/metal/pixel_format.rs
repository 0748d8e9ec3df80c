//! `MTLPixelFormat` raw values.
use vstd::prelude::*;

verus! {

pub const A8UNORM: usize = 1;
pub const R8UNORM: usize = 10;
pub const R8SNORM: usize = 12;
pub const R8UINT: usize = 13;
pub const R8SINT: usize = 14;
pub const R16UNORM: usize = 20;
pub const R16SNORM: usize = 22;
pub const R16UINT: usize = 23;
pub const R16SINT: usize = 24;
pub const R16FLOAT: usize = 25;
pub const RG8UNORM: usize = 30;
pub const RG8SNORM: usize = 32;
pub const RG8UINT: usize = 33;
pub const RG8SINT: usize = 34;
pub const RGBA8UNORM: usize = 70;
pub const RGBA8UNORM_SRGB: usize = 71;
pub const RGBA8SNORM: usize = 72;
pub const RGBA8UINT: usize = 73;
pub const RGBA8SINT: usize = 74;
pub const BGRA8UNORM: usize = 80;
pub const BGRA8UNORM_SRGB: usize = 81;
pub const R32FLOAT: usize = 55;
pub const RG16FLOAT: usize = 65;
pub const RGBA16FLOAT: usize = 115;
pub const RGBA32FLOAT: usize = 125;
pub const DEPTH32FLOAT: usize = 252;
pub const STENCIL8: usize = 253;
pub const BGRA10_XR: usize = 552;
pub const BGR10_XR: usize = 554;
pub const INVALID: usize = 0;
pub const R8UNORM_SRGB: usize = 11;
pub const RG8UNORM_SRGB: usize = 31;
pub const B5G6R5UNORM: usize = 40;
pub const A1BGR5UNORM: usize = 41;
pub const ABGR4UNORM: usize = 42;
pub const BGR5A1UNORM: usize = 43;
pub const R32UINT: usize = 53;
pub const R32SINT: usize = 54;
pub const RG16UNORM: usize = 60;
pub const RG16SNORM: usize = 62;
pub const RG16UINT: usize = 63;
pub const RG16SINT: usize = 64;
pub const RGB10A2UNORM: usize = 90;
pub const RGB10A2UINT: usize = 91;
pub const RG11B10FLOAT: usize = 92;
pub const RGB9E5FLOAT: usize = 93;
pub const BGR10A2UNORM: usize = 94;
pub const BGR10_XR_SRGB: usize = 555;
pub const RG32UINT: usize = 103;
pub const RG32SINT: usize = 104;
pub const RG32FLOAT: usize = 105;
pub const RGBA16UNORM: usize = 110;
pub const RGBA16SNORM: usize = 112;
pub const RGBA16UINT: usize = 113;
pub const RGBA16SINT: usize = 114;
pub const BGRA10_XR_SRGB: usize = 553;
pub const RGBA32UINT: usize = 123;
pub const RGBA32SINT: usize = 124;
pub const DEPTH16UNORM: usize = 250;

} // verus!
