use crate::error::{CommandBufferFault, Error, Result};
use vstd::prelude::*;

pub mod device_options;
mod raw_values;

pub use self::raw_values::{AliasingStrategy, CustomKernelIndex, DeviceCapsValues, FloatDataTypeBit, FloatDataTypeShift};

verus! {

/// A `MPSDimensionSlice`: `length` elements from `start`.
#[derive(Clone, Copy, Debug, Default, PartialEq, Eq)]
pub struct DimensionSlice {
    pub start: usize,
    pub length: usize,
}

/// A `MPSCustomKernelArgumentCount`.
#[derive(Clone, Copy, Debug, Default, PartialEq, Eq)]
pub struct CustomKernelArgumentCount {
    pub destination_texture_count: usize,
    pub source_texture_count: usize,
    pub broadcast_texture_count: usize,
}

/// Bytes of the predicate word a `MPSPredicate` reads.
pub const PREDICATE_SIZE: usize = 4;

/// Whether a predicate word at byte `offset` lies inside a buffer of
/// `length` bytes, at 4-byte alignment.
pub fn predicate_fits(offset: usize, length: usize) -> (r: bool)
    ensures
        r == (offset % PREDICATE_SIZE == 0 && offset + PREDICATE_SIZE <= length),
{
    offset % PREDICATE_SIZE == 0 && offset <= length && length - offset >= PREDICATE_SIZE
}

/// The error an encode path reports for what holding its command buffer
/// came to: the encode's own result when the buffer was held, or the
/// `CommandBuffer` error carrying the refusal.
pub fn encode_outcome<T>(held: core::result::Result<T, CommandBufferFault>) -> (r: Result<T>)
    ensures
        match held {
            Ok(value) => r == Ok::<T, Error>(value),
            Err(fault) => r == Err::<T, Error>(Error::CommandBuffer(fault)),
        },
{
    match held {
        Ok(value) => Ok(value),
        Err(fault) => Err(Error::CommandBuffer(fault)),
    }
}

/// What to do next while holding, one after the other, the `count`
/// distinct command buffers of a batch call into MPS.
#[derive(Debug, Clone, PartialEq, Eq)]
pub enum HoldAction {
    /// Hold the next command buffer.
    HoldNext,
    /// Every buffer is held or no longer records: make the call into MPS.
    CallMps,
    /// Make no call, so nothing MPS would change (a read count) changes.
    Refuse(Error),
}

/// What a batch call does after `encode_foreign` answered for buffer `index`
/// of `count` (`None` when it held the buffer). A buffer that no longer
/// records has nothing left to protect and is passed over; any other refusal
/// stops the call before MPS is reached.
pub fn next_hold_action(index: usize, count: usize, answer: Option<CommandBufferFault>) -> (r: HoldAction)
    requires
        index < count,
    ensures
        r == (match answer {
            Some(CommandBufferFault::StateLockPoisoned) => HoldAction::Refuse(
                Error::CommandBuffer(CommandBufferFault::StateLockPoisoned),
            ),
            Some(CommandBufferFault::ActiveEncoder) => HoldAction::Refuse(
                Error::CommandBuffer(CommandBufferFault::ActiveEncoder),
            ),
            _ => if index + 1 < count {
                HoldAction::HoldNext
            } else {
                HoldAction::CallMps
            },
        }),
        r is CallMps ==> index + 1 == count,
        answer == Some(CommandBufferFault::ActiveEncoder) ==> r !is CallMps && r !is HoldNext,
{
    match answer {
        Some(CommandBufferFault::StateLockPoisoned) => HoldAction::Refuse(
            Error::CommandBuffer(CommandBufferFault::StateLockPoisoned),
        ),
        Some(CommandBufferFault::ActiveEncoder) => HoldAction::Refuse(
            Error::CommandBuffer(CommandBufferFault::ActiveEncoder),
        ),
        _ => if index + 1 < count {
            HoldAction::HoldNext
        } else {
            HoldAction::CallMps
        },
    }
}

} // verus!
