use crate::error::{Error, Result};
use crate::filter_rules::histogram_supported_spec;
use vstd::prelude::*;

verus! {

/// Histogram buffers must start at a multiple of this many bytes.
pub const HISTOGRAM_OFFSET_ALIGNMENT: usize = 32;
/// The smallest diameter `MPSImageMedian` takes.
pub const MIN_MEDIAN_DIAMETER: usize = 3;
/// The largest diameter `MPSImageMedian` takes.
pub const MAX_MEDIAN_DIAMETER: usize = 127;

/// Whether `ImageBox` takes this kernel size: both sides odd.
pub fn box_kernel_size_valid(kernel_width: usize, kernel_height: usize) -> (r: bool)
    ensures
        r == (kernel_width % 2 == 1 && kernel_height % 2 == 1),
{
    kernel_width % 2 == 1 && kernel_height % 2 == 1
}

/// Whether `ImageMedian` takes this diameter: odd, from 3 to 127.
pub fn median_diameter_valid(kernel_diameter: usize) -> (r: bool)
    ensures
        r == (kernel_diameter % 2 == 1 && MIN_MEDIAN_DIAMETER <= kernel_diameter <= MAX_MEDIAN_DIAMETER),
{
    kernel_diameter % 2 == 1 && MIN_MEDIAN_DIAMETER <= kernel_diameter && kernel_diameter <= MAX_MEDIAN_DIAMETER
}

/// Whether `ImageConvolution` takes this kernel: both sides odd and one
/// weight per kernel cell (the cell count saturating at `usize::MAX`).
pub fn convolution_kernel_valid(kernel_width: usize, kernel_height: usize, weights: usize) -> (r: bool)
    ensures
        r == (kernel_width % 2 == 1 && kernel_height % 2 == 1 && weights == (
            if kernel_width * kernel_height > usize::MAX { usize::MAX as int } else { kernel_width * kernel_height }
        )),
{
    if kernel_width % 2 == 0 || kernel_height % 2 == 0 {
        return false;
    }
    let cells = match kernel_width.checked_mul(kernel_height) {
        Some(cells) => cells,
        None => usize::MAX,
    };
    weights == cells
}

/// Whether `n` is a power of two.
pub open spec fn is_power_of_two(n: int) -> bool
    decreases n,
{
    if n <= 0 {
        false
    } else if n == 1 {
        true
    } else {
        n % 2 == 0 && is_power_of_two(n / 2)
    }
}

/// Whether `ImageHistogram` takes this many bins: a power of two.
pub fn histogram_entries_valid(number_of_entries: usize) -> (r: bool)
    ensures
        r == is_power_of_two(number_of_entries as int),
{
    if number_of_entries == 0 {
        return false;
    }
    let mut n = number_of_entries;
    while n > 1
        invariant
            n >= 1,
            is_power_of_two(number_of_entries as int) == is_power_of_two(n as int),
        decreases n,
    {
        if n % 2 != 0 {
            return false;
        }
        n = n / 2;
    }
    true
}

/// Refuses a histogram offset that is not a multiple of 32 bytes.
pub fn check_histogram_offset(offset: usize) -> (r: Result<()>)
    ensures
        r == (if offset % HISTOGRAM_OFFSET_ALIGNMENT != 0 {
            Err(Error::Misaligned { field: "histogram_offset", value: offset, alignment: HISTOGRAM_OFFSET_ALIGNMENT })
        } else {
            Ok(())
        }),
{
    if offset % HISTOGRAM_OFFSET_ALIGNMENT != 0 {
        Err(Error::Misaligned { field: "histogram_offset", value: offset, alignment: HISTOGRAM_OFFSET_ALIGNMENT })
    } else {
        Ok(())
    }
}

/// Refuses a histogram size query for a source format MPS cannot histogram
/// (MPS aborts on such a query).
pub fn check_histogram_format(source_format: usize) -> (r: Result<()>)
    ensures
        r == (if !histogram_supported_spec(source_format) {
            Err(Error::UnsupportedPixelFormat { operand: "source", pixel_format: source_format })
        } else {
            Ok(())
        }),
{
    if !crate::filter_rules::histogram_source_supported(source_format) {
        Err(Error::UnsupportedPixelFormat { operand: "source", pixel_format: source_format })
    } else {
        Ok(())
    }
}

/// Checks that a buffer of `buffer_length` bytes holds `histogram_size`
/// bytes of bins from `offset`.
pub fn check_histogram_extent(offset: usize, histogram_size: usize, buffer_length: usize) -> (r: Result<()>)
    ensures
        r == (if offset + histogram_size > usize::MAX {
            Err(Error::Overflow)
        } else if offset + histogram_size > buffer_length {
            Err(Error::BufferTooSmall { required: (offset + histogram_size) as usize, length: buffer_length })
        } else {
            Ok(())
        }),
{
    let required = match offset.checked_add(histogram_size) {
        Some(required) => required,
        None => return Err(Error::Overflow),
    };
    if required > buffer_length {
        return Err(Error::BufferTooSmall { required, length: buffer_length });
    }
    Ok(())
}

} // verus!
