//! Selected `MPSDataType` raw values.
use vstd::prelude::*;

verus! {

pub const INVALID: u32 = 0;
pub const FLOAT32: u32 = 0x1000_0020;
pub const FLOAT16: u32 = 0x1000_0010;
pub const INT8: u32 = 0x2000_0008;
pub const INT16: u32 = 0x2000_0010;
pub const INT32: u32 = 0x2000_0020;
pub const UINT8: u32 = 0x0000_0008;
pub const UINT16: u32 = 0x0000_0010;
pub const UINT32: u32 = 0x0000_0020;
pub const UNORM8: u32 = 0x4000_0008;
pub const BFLOAT16: u32 = 0x9000_0010;
pub const COMPLEX_FLOAT32: u32 = 0x1100_0040;
pub const COMPLEX_FLOAT16: u32 = 0x1100_0020;
pub const COMPLEX_BFLOAT16: u32 = 0x9100_0020;
pub const INT2: u32 = 0x2000_0002;
pub const INT4: u32 = 0x2000_0004;
pub const INT64: u32 = 0x2000_0040;
pub const UINT2: u32 = 0x0000_0002;
pub const UINT4: u32 = 0x0000_0004;
pub const UINT64: u32 = 0x0000_0040;
pub const BOOL: u32 = 0x8000_0008;
pub const UNORM1: u32 = 0x4000_0001;

} // verus!
