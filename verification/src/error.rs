use vstd::prelude::*;

verus! {

/// Errors returned by the checked wrappers.
#[derive(Debug, Clone, PartialEq, Eq)]
#[non_exhaustive]
pub enum Error {
    /// A caller-provided slice was too small for the requested image transfer.
    InvalidLength {
        /// Expected byte count for the requested image transfer.
        expected: usize,
        /// Actual byte count supplied by the caller.
        actual: usize,
    },
    /// A Metal buffer holds fewer bytes than the described storage needs.
    BufferTooSmall { required: usize, length: usize },
    /// A stride or offset is not a multiple of the alignment it needs.
    Misaligned { field: &'static str, value: usize, alignment: usize },
    /// A dimension or stride is smaller than (or differs from) what is required.
    DimensionMismatch { field: &'static str, expected: usize, actual: usize },
    /// An argument that the kernel would abort on.
    InvalidArgument(&'static str),
    /// An `MPSDataType` raw value without a known element size.
    UnsupportedDataType(u32),
    /// A texture pixel format that the kernel cannot read or write.
    UnsupportedPixelFormat { operand: &'static str, pixel_format: usize },
    /// A size computation overflowed the native integer range.
    Overflow,
    /// A feature that the running system does not offer.
    Unsupported(&'static str),
    /// Metal Performance Shaders refused the named operation.
    Rejected(&'static str),
    /// The command buffer could not be held for an MPS call.
    CommandBuffer(CommandBufferFault),
}

/// Why a command buffer cannot be held for an MPS call: the refusals of
/// apple-metal's `CommandBuffer::encode_foreign`.
#[derive(Debug, Clone, PartialEq, Eq)]
pub enum CommandBufferFault {
    /// The command buffer's lifecycle lock was poisoned.
    StateLockPoisoned,
    /// The command buffer no longer records (it was committed, completed or failed).
    InvalidState { operation: &'static str, state: &'static str },
    /// An apple-metal command encoder is open on the command buffer.
    ActiveEncoder,
}

/// Convenient result alias used throughout the crate.
pub type Result<T> = core::result::Result<T, Error>;

} // verus!
