use crate::error::{Error, Result};
use crate::metal::{storage_mode, texture_usage};
use vstd::prelude::*;

pub mod feature_channel_format;
pub mod image_edge_mode;
pub mod image_layout;
pub mod kernel_options;
mod raw_values;

pub use self::raw_values::{AlphaType, ImageType, PurgeableState};

verus! {

/// A pixel position and feature channel in an image.
#[derive(Clone, Copy, Debug, Default, PartialEq, Eq)]
pub struct ImageCoordinate {
    pub x: usize,
    pub y: usize,
    pub channel: usize,
}

/// Plain-Rust configuration for building an `MPSImageDescriptor`.
#[derive(Debug, Clone, Copy)]
pub struct ImageDescriptor {
    /// Corresponds to the `channel_format` field on `MPSImageDescriptor`.
    pub channel_format: usize,
    /// Corresponds to the `width` field on `MPSImageDescriptor`.
    pub width: usize,
    /// Corresponds to the `height` field on `MPSImageDescriptor`.
    pub height: usize,
    /// Corresponds to the `feature_channels` field on `MPSImageDescriptor`.
    pub feature_channels: usize,
    /// Corresponds to the `number_of_images` field on `MPSImageDescriptor`.
    pub number_of_images: usize,
    /// Corresponds to the `usage` field on `MPSImageDescriptor`.
    pub usage: usize,
    /// Corresponds to the `storage_mode` field on `MPSImageDescriptor`.
    pub storage_mode: usize,
}

impl ImageDescriptor {
    /// A single-image descriptor, readable and writable by shaders, in managed storage.
    pub fn new(width: usize, height: usize, feature_channels: usize, channel_format: usize) -> (r: Self)
        ensures
            r == (ImageDescriptor {
                channel_format,
                width,
                height,
                feature_channels,
                number_of_images: 1,
                usage: (texture_usage::SHADER_READ | texture_usage::SHADER_WRITE) as usize,
                storage_mode: storage_mode::MANAGED,
            }),
    {
        Self {
            channel_format,
            width,
            height,
            feature_channels,
            number_of_images: 1,
            usage: texture_usage::SHADER_READ | texture_usage::SHADER_WRITE,
            storage_mode: storage_mode::MANAGED,
        }
    }
}

/// Rectangular region used for image transfers or clip rectangles.
#[derive(Debug, Clone, Copy)]
pub struct ImageRegion {
    /// Corresponds to the `x` field on `MPSRegion`.
    pub x: usize,
    /// Corresponds to the `y` field on `MPSRegion`.
    pub y: usize,
    /// Corresponds to the `z` field on `MPSRegion`.
    pub z: usize,
    /// Corresponds to the `width` field on `MPSRegion`.
    pub width: usize,
    /// Corresponds to the `height` field on `MPSRegion`.
    pub height: usize,
    /// Corresponds to the `depth` field on `MPSRegion`.
    pub depth: usize,
}

impl ImageRegion {
    /// Construct an arbitrary region.
    pub fn new(x: usize, y: usize, z: usize, width: usize, height: usize, depth: usize) -> (r: Self)
        ensures
            r == (ImageRegion { x, y, z, width, height, depth }),
    {
        Self { x, y, z, width, height, depth }
    }

    /// Region covering the full first image slice.
    pub fn whole(width: usize, height: usize) -> (r: Self)
        ensures
            r == (ImageRegion { x: 0, y: 0, z: 0, width, height, depth: 1 }),
    {
        Self::new(0, 0, 0, width, height, 1)
    }
}

/// `MPSImageReadWriteParams` values.
#[derive(Debug, Clone, Copy)]
pub struct ImageReadWriteParams {
    /// Corresponds to the `feature_channel_offset` field on `MPSImageReadWriteParams`.
    pub feature_channel_offset: usize,
    /// Corresponds to the `feature_channel_count` field on `MPSImageReadWriteParams`.
    pub feature_channel_count: usize,
}

impl ImageReadWriteParams {
    /// A parameter block describing the feature-channel window to transfer.
    pub fn new(feature_channel_offset: usize, feature_channel_count: usize) -> (r: Self)
        ensures
            r == (ImageReadWriteParams { feature_channel_offset, feature_channel_count }),
    {
        Self { feature_channel_offset, feature_channel_count }
    }

    /// Transfer all feature channels starting at zero.
    pub fn all(feature_channels: usize) -> (r: Self)
        ensures
            r == (ImageReadWriteParams { feature_channel_offset: 0, feature_channel_count: feature_channels }),
    {
        Self::new(0, feature_channels)
    }
}

/// Bytes per feature channel of an `MPSImageFeatureChannelFormat`.
pub open spec fn channel_bytes(channel_format: usize) -> Option<usize> {
    if channel_format == feature_channel_format::UNORM8 {
        Some(1)
    } else if channel_format == feature_channel_format::UNORM16 || channel_format == feature_channel_format::FLOAT16 {
        Some(2)
    } else if channel_format == feature_channel_format::FLOAT32 {
        Some(4)
    } else {
        None
    }
}

/// Bytes per feature channel of an `MPSImageFeatureChannelFormat`.
pub fn feature_channel_size(channel_format: usize) -> (r: Option<usize>)
    ensures
        r == channel_bytes(channel_format),
{
    if channel_format == feature_channel_format::UNORM8 {
        Some(1)
    } else if channel_format == feature_channel_format::UNORM16 || channel_format == feature_channel_format::FLOAT16 {
        Some(2)
    } else if channel_format == feature_channel_format::FLOAT32 {
        Some(4)
    } else {
        None
    }
}

/// What a CPU transfer reads of the image it copies from or to.
#[derive(Debug, Clone, Copy)]
pub struct TransferTarget {
    pub width: usize,
    pub height: usize,
    pub feature_channels: usize,
    pub number_of_images: usize,
    pub channel_format: usize,
}

/// The bytes one row of `region` occupies in the caller's memory: all the
/// transferred channels of each pixel in the chunky layout, one channel per
/// pixel in each plane of the planar layout.
pub open spec fn row_span(data_layout: usize, region_width: int, channel_count: int, channel_size: int) -> int {
    if data_layout == image_layout::FEATURE_CHANNELSxHEIGHTxWIDTH {
        region_width * channel_size
    } else {
        region_width * channel_count * channel_size
    }
}

/// The bytes the caller's memory must hold: `bytes_per_row` for each row of
/// each slice, once per transferred channel in the planar layout.
pub open spec fn transfer_extent(data_layout: usize, bytes_per_row: int, region: ImageRegion, channel_count: int) -> int {
    let rows = bytes_per_row * region.height * region.depth;
    if data_layout == image_layout::FEATURE_CHANNELSxHEIGHTxWIDTH {
        rows * channel_count
    } else {
        rows
    }
}

impl TransferTarget {
    /// What `check_transfer` returns: the first rule the transfer breaks.
    pub open spec fn transfer_spec(
        self,
        actual: usize,
        data_layout: usize,
        bytes_per_row: usize,
        region: ImageRegion,
        params: ImageReadWriteParams,
        image_index: usize,
    ) -> Result<()> {
        let offset = params.feature_channel_offset as int;
        let count = params.feature_channel_count as int;
        if data_layout != image_layout::HEIGHTxWIDTHxFEATURE_CHANNELS
            && data_layout != image_layout::FEATURE_CHANNELSxHEIGHTxWIDTH {
            Err(Error::InvalidArgument("data_layout is not an MPSDataLayout"))
        } else if channel_bytes(self.channel_format) is None {
            Err(Error::Unsupported("the image has no CPU-readable feature channel format"))
        } else if image_index >= self.number_of_images {
            Err(Error::InvalidArgument("image_index is past the image's number_of_images"))
        } else if region.width == 0 || region.height == 0 || region.depth != 1 || region.z != 0
            || region.x + region.width > self.width || region.y + region.height > self.height {
            Err(Error::InvalidArgument("the region must be a non-empty 2D region inside the image"))
        } else if offset % 4 != 0 {
            Err(Error::Misaligned { field: "feature_channel_offset", value: params.feature_channel_offset, alignment: 4 })
        } else if count == 0 || offset + count > self.feature_channels
            || (count % 4 != 0 && offset + count != self.feature_channels) {
            Err(Error::InvalidArgument(
                "the feature channel window must hold whole slices of 4 channels or reach the last channel",
            ))
        } else {
            let size = channel_bytes(self.channel_format).unwrap() as int;
            let row = row_span(data_layout, region.width as int, count, size);
            let extent = transfer_extent(data_layout, bytes_per_row as int, region, count);
            if row > usize::MAX {
                Err(Error::Overflow)
            } else if bytes_per_row < row {
                Err(Error::DimensionMismatch { field: "bytes_per_row", expected: row as usize, actual: bytes_per_row })
            } else if checked_transfer_extent(data_layout, bytes_per_row as int, region, count) is None {
                Err(Error::Overflow)
            } else if actual < extent {
                Err(Error::InvalidLength { expected: extent as usize, actual })
            } else {
                Ok(())
            }
        }
    }

    /// Checks a CPU transfer between `actual` bytes of caller memory and the
    /// image, before MPS copies: a known layout, an existing image index, a
    /// region inside the image, a feature-channel window MPS accepts, a row
    /// stride that holds a row, and caller memory that holds every row.
    pub fn check_transfer(
        &self,
        actual: usize,
        data_layout: usize,
        bytes_per_row: usize,
        region: ImageRegion,
        params: ImageReadWriteParams,
        image_index: usize,
    ) -> (r: Result<()>)
        ensures
            r == self.transfer_spec(actual, data_layout, bytes_per_row, region, params, image_index),
    {
        let planar = data_layout == image_layout::FEATURE_CHANNELSxHEIGHTxWIDTH;
        if data_layout != image_layout::HEIGHTxWIDTHxFEATURE_CHANNELS && !planar {
            return Err(Error::InvalidArgument("data_layout is not an MPSDataLayout"));
        }
        let size = match feature_channel_size(self.channel_format) {
            Some(size) => size,
            None => return Err(Error::Unsupported("the image has no CPU-readable feature channel format")),
        };
        if image_index >= self.number_of_images {
            return Err(Error::InvalidArgument("image_index is past the image's number_of_images"));
        }
        let inside = region.width != 0 && region.height != 0 && region.depth == 1 && region.z == 0
            && region.x <= self.width && region.width <= self.width - region.x
            && region.y <= self.height && region.height <= self.height - region.y;
        if !inside {
            return Err(Error::InvalidArgument("the region must be a non-empty 2D region inside the image"));
        }
        let offset = params.feature_channel_offset;
        let count = params.feature_channel_count;
        if offset % 4 != 0 {
            return Err(Error::Misaligned { field: "feature_channel_offset", value: offset, alignment: 4 });
        }
        let window = count != 0 && offset <= self.feature_channels && count <= self.feature_channels - offset
            && (count % 4 == 0 || offset + count == self.feature_channels);
        if !window {
            return Err(Error::InvalidArgument(
                "the feature channel window must hold whole slices of 4 channels or reach the last channel",
            ));
        }
        proof {
            vstd::arithmetic::mul::lemma_mul_nonnegative(region.width as int, count as int);
        }
        let pixel = if planar {
            Some(region.width)
        } else {
            region.width.checked_mul(count)
        };
        let row = match pixel {
            Some(p) => match p.checked_mul(size) {
                Some(row) => row,
                None => return Err(Error::Overflow),
            },
            None => {
                proof {
                    vstd::arithmetic::mul::lemma_mul_inequality(1, size as int, region.width * count);
                }
                return Err(Error::Overflow);
            },
        };
        if bytes_per_row < row {
            return Err(Error::DimensionMismatch { field: "bytes_per_row", expected: row, actual: bytes_per_row });
        }
        proof {
            lemma_checked_extent_of_a_slice(data_layout, bytes_per_row as int, region, count as int);
        }
        let extent = match required_bytes(data_layout, bytes_per_row, region, params) {
            Some(extent) => extent,
            None => return Err(Error::Overflow),
        };
        if actual < extent {
            return Err(Error::InvalidLength { expected: extent, actual });
        }
        Ok(())
    }
}

/// `transfer_extent`, computed step by step in `usize`: `None` when one of
/// the partial products does not fit.
pub open spec fn checked_transfer_extent(data_layout: usize, bytes_per_row: int, region: ImageRegion, channel_count: int) -> Option<usize> {
    let a = bytes_per_row * region.height;
    let rows = a * region.depth;
    let extent = transfer_extent(data_layout, bytes_per_row, region, channel_count);
    if a > usize::MAX || rows > usize::MAX || extent > usize::MAX {
        None
    } else {
        Some(extent as usize)
    }
}

/// The byte count a caller's memory must hold for a transfer of `region`,
/// or `None` when computing it overflows.
pub fn required_bytes(
    data_layout: usize,
    bytes_per_row: usize,
    region: ImageRegion,
    params: ImageReadWriteParams,
) -> (r: Option<usize>)
    ensures
        r == checked_transfer_extent(data_layout, bytes_per_row as int, region, params.feature_channel_count as int),
{
    proof {
        vstd::arithmetic::mul::lemma_mul_nonnegative(bytes_per_row as int, region.height as int);
        vstd::arithmetic::mul::lemma_mul_nonnegative(bytes_per_row * region.height, region.depth as int);
    }
    let a = match bytes_per_row.checked_mul(region.height) {
        Some(a) => a,
        None => return None,
    };
    let rows = match a.checked_mul(region.depth) {
        Some(rows) => rows,
        None => return None,
    };
    if data_layout == image_layout::FEATURE_CHANNELSxHEIGHTxWIDTH {
        rows.checked_mul(params.feature_channel_count)
    } else {
        Some(rows)
    }
}

/// With a single slice and at least one channel, the step-by-step extent
/// overflows exactly when the extent does.
proof fn lemma_checked_extent_of_a_slice(data_layout: usize, bytes_per_row: int, region: ImageRegion, count: int)
    requires
        bytes_per_row >= 0,
        region.depth == 1,
        count >= 1,
    ensures
        checked_transfer_extent(data_layout, bytes_per_row, region, count) is None
            <==> transfer_extent(data_layout, bytes_per_row, region, count) > usize::MAX,
{
    let a = bytes_per_row * region.height;
    vstd::arithmetic::mul::lemma_mul_nonnegative(bytes_per_row, region.height as int);
    vstd::arithmetic::mul::lemma_mul_basics(a);
    assert(a * region.depth == a);
    vstd::arithmetic::mul::lemma_mul_inequality(1, count, a);
    vstd::arithmetic::mul::lemma_mul_is_commutative(a, count);
}

/// The number of planes a transfer writes: one per channel in the planar layout.
pub open spec fn transfer_planes(data_layout: usize, channel_count: int) -> int {
    if data_layout == image_layout::FEATURE_CHANNELSxHEIGHTxWIDTH { channel_count } else { 1 }
}

proof fn lemma_row_inside_extent(bytes_per_row: int, height: int, planes: int, plane: int, row: int, span: int)
    by (nonlinear_arith)
    requires
        0 <= plane < planes,
        0 <= row < height,
        0 <= span <= bytes_per_row,
    ensures
        (plane * height + row) * bytes_per_row + span <= bytes_per_row * height * planes,
{
    assert((plane * height + row) * bytes_per_row + span <= (plane * height + row + 1) * bytes_per_row);
    assert(plane * height + row + 1 <= planes * height);
    assert((plane * height + row + 1) * bytes_per_row <= (planes * height) * bytes_per_row);
}

/// An accepted transfer stays inside the image and inside the caller's
/// memory: the region lies in the image, the channel window in its
/// channels, and every row of every plane, `bytes_per_row` apart, ends
/// within the `actual` bytes handed over.
pub proof fn lemma_accepted_transfer_stays_in_bounds(
    target: TransferTarget,
    actual: usize,
    data_layout: usize,
    bytes_per_row: usize,
    region: ImageRegion,
    params: ImageReadWriteParams,
    image_index: usize,
    plane: int,
    row: int,
)
    requires
        target.transfer_spec(actual, data_layout, bytes_per_row, region, params, image_index) is Ok,
        0 <= plane < transfer_planes(data_layout, params.feature_channel_count as int),
        0 <= row < region.height,
    ensures
        image_index < target.number_of_images,
        region.x + region.width <= target.width,
        region.y + region.height <= target.height,
        params.feature_channel_offset + params.feature_channel_count <= target.feature_channels,
        ({
            let span = row_span(
                data_layout,
                region.width as int,
                params.feature_channel_count as int,
                channel_bytes(target.channel_format).unwrap() as int,
            );
            (plane * region.height + row) * bytes_per_row + span <= actual
        }),
{
    let count = params.feature_channel_count as int;
    let size = channel_bytes(target.channel_format).unwrap() as int;
    let span = row_span(data_layout, region.width as int, count, size);
    let planes = transfer_planes(data_layout, count);
    vstd::arithmetic::mul::lemma_mul_nonnegative(region.width as int, size);
    vstd::arithmetic::mul::lemma_mul_nonnegative(region.width * count, size);
    lemma_row_inside_extent(bytes_per_row as int, region.height as int, planes, plane, row, span);
    vstd::arithmetic::mul::lemma_mul_basics(bytes_per_row * region.height);
}

/// Refuses the float32 helpers on an image whose channels are not float32.
pub fn check_float32_image(channel_format: usize) -> (r: Result<()>)
    ensures
        r == (if channel_format != feature_channel_format::FLOAT32 {
            Err(Error::Unsupported("the f32 helpers need a FLOAT32 image"))
        } else {
            Ok(())
        }),
{
    if channel_format != feature_channel_format::FLOAT32 {
        Err(Error::Unsupported("the f32 helpers need a FLOAT32 image"))
    } else {
        Ok(())
    }
}

/// The element count and row stride of a tightly packed float32 copy of the
/// first slice of a `width` x `height` image with `feature_channels`
/// channels, in the height x width x channels layout.
pub fn packed_f32_shape(width: usize, height: usize, feature_channels: usize) -> (r: (usize, usize))
    requires
        width * height * feature_channels <= usize::MAX,
        width * feature_channels * 4 <= usize::MAX,
    ensures
        r.0 == width * height * feature_channels,
        r.1 == width * feature_channels * 4,
{
    proof {
        vstd::arithmetic::mul::lemma_mul_nonnegative(width as int, height as int);
        vstd::arithmetic::mul::lemma_mul_nonnegative(width as int, feature_channels as int);
        assert(width * height <= width * height * feature_channels || feature_channels == 0) by (nonlinear_arith)
            requires feature_channels >= 0, width * height >= 0;
        assert(width * feature_channels <= width * feature_channels * 4) by (nonlinear_arith)
            requires width * feature_channels >= 0;
    }
    let len = if feature_channels == 0 { 0 } else { width * height * feature_channels };
    proof {
        if feature_channels == 0 {
            vstd::arithmetic::mul::lemma_mul_basics(width * height);
        }
    }
    let row = width * feature_channels * 4;
    (len, row)
}

/// Checks the float32 data handed to `write_f32` against the image's
/// `expected` element count; the lengths reported are in bytes.
pub fn check_f32_length(actual: usize, expected: usize) -> (r: Result<()>)
    requires
        expected * 4 <= usize::MAX,
        actual * 4 <= usize::MAX,
    ensures
        r == (if actual != expected {
            Err(Error::InvalidLength { expected: (expected * 4) as usize, actual: (actual * 4) as usize })
        } else {
            Ok(())
        }),
{
    if actual != expected {
        Err(Error::InvalidLength { expected: expected * 4, actual: actual * 4 })
    } else {
        Ok(())
    }
}

/// The widest and tallest image MPS allocates.
pub const MAX_IMAGE_EXTENT: usize = 16384;
/// The most texture slices (four feature channels each, per image) an image may span.
pub const MAX_IMAGE_SLICES: usize = 2048;
/// The texture usage bits an image descriptor may carry.
pub const KNOWN_USAGE: usize = 0x17;

/// The texture slices an image with these channels and images needs: one
/// per four feature channels, per image.
pub open spec fn image_slices(feature_channels: usize, number_of_images: usize) -> int {
    let per_image: int = feature_channels as int / 4 + if feature_channels % 4 != 0 { 1int } else { 0int };
    per_image * number_of_images
}

impl ImageDescriptor {
    /// Whether MPS can allocate an image from this descriptor.
    pub open spec fn valid_spec(self) -> bool {
        &&& 1 <= self.width <= MAX_IMAGE_EXTENT
        &&& 1 <= self.height <= MAX_IMAGE_EXTENT
        &&& self.feature_channels >= 1
        &&& self.number_of_images >= 1
        &&& image_slices(self.feature_channels, self.number_of_images) <= MAX_IMAGE_SLICES
        &&& feature_channel_format::UNORM8 <= self.channel_format <= feature_channel_format::FLOAT32
        &&& self.storage_mode == storage_mode::SHARED || self.storage_mode == storage_mode::MANAGED
            || self.storage_mode == storage_mode::PRIVATE
        &&& self.usage & !KNOWN_USAGE == 0
    }

    /// Whether MPS can allocate an image from this descriptor: extents from
    /// 1 to 16384, at least one channel and one image, at most 2048 slices,
    /// a channel format, CPU-visible or private storage, and known usage bits.
    pub fn is_valid(&self) -> (r: bool)
        ensures
            r == self.valid_spec(),
    {
        if self.width < 1 || self.width > MAX_IMAGE_EXTENT || self.height < 1 || self.height > MAX_IMAGE_EXTENT {
            return false;
        }
        if self.feature_channels < 1 || self.number_of_images < 1 {
            return false;
        }
        let per_image = self.feature_channels / 4 + if self.feature_channels % 4 != 0 { 1 } else { 0 };
        match per_image.checked_mul(self.number_of_images) {
            Some(slices) => if slices > MAX_IMAGE_SLICES {
                return false;
            },
            None => return false,
        }
        if self.channel_format < feature_channel_format::UNORM8 || self.channel_format > feature_channel_format::FLOAT32 {
            return false;
        }
        if !(self.storage_mode == storage_mode::SHARED || self.storage_mode == storage_mode::MANAGED
            || self.storage_mode == storage_mode::PRIVATE) {
            return false;
        }
        self.usage & !KNOWN_USAGE == 0
    }
}

/// The storage mode decides validity only by whether MPS can allocate in
/// it: shared, managed and private storage are alike, memoryless storage
/// is always refused, and a descriptor valid in one storage mode is valid
/// in each of the other two.
pub proof fn lemma_storage_mode_refuses_only_memoryless(descriptor: ImageDescriptor)
    ensures
        (ImageDescriptor { storage_mode: storage_mode::PRIVATE, ..descriptor }).valid_spec()
            == (ImageDescriptor { storage_mode: storage_mode::SHARED, ..descriptor }).valid_spec(),
        (ImageDescriptor { storage_mode: storage_mode::MANAGED, ..descriptor }).valid_spec()
            == (ImageDescriptor { storage_mode: storage_mode::SHARED, ..descriptor }).valid_spec(),
        !(ImageDescriptor { storage_mode: storage_mode::MEMORYLESS, ..descriptor }).valid_spec(),
        descriptor.valid_spec() ==> (ImageDescriptor { storage_mode: storage_mode::PRIVATE, ..descriptor }).valid_spec(),
{
}

} // verus!
