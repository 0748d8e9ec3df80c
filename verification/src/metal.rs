//! The Metal raw values that the operand rules read: `MTLPixelFormat`,
//! `MTLTextureType`, `MTLTextureUsage` and `MTLStorageMode`.

pub mod pixel_format;
pub mod storage_mode;
pub mod texture_type;
pub mod texture_usage;
