use crate::error::{Error, Result};
use crate::image::ImageRegion;
use crate::metal::{pixel_format as pf, texture_type, texture_usage};
use vstd::prelude::*;

verus! {

/// How a pixel format's channels are interpreted.
#[derive(Clone, Copy, Debug, PartialEq, Eq, Structural)]
pub enum ColorModel {
    Monochrome,
    Alpha,
    TwoChannel,
    Rgb,
}

/// What the filter rules need to know of a pixel format.
#[derive(Clone, Copy, Debug, PartialEq, Eq, Structural)]
pub struct FormatTraits {
    pub channels: u8,
    pub model: ColorModel,
    pub integer: bool,
    pub writable: bool,
}

/// The traits of the uncompressed color formats image kernels can see;
/// `None` for depth, stencil, compressed and unknown formats.
pub open spec fn format_traits_spec(pixel_format: usize) -> Option<FormatTraits> {
    let p = pixel_format;
    if p == pf::A8UNORM {
        Some(FormatTraits { channels: 1, model: ColorModel::Alpha, integer: false, writable: true })
    } else if p == pf::R8UNORM || p == pf::R8UNORM_SRGB || p == pf::R8SNORM || p == pf::R16UNORM
        || p == pf::R16SNORM || p == pf::R16FLOAT || p == pf::R32FLOAT {
        Some(FormatTraits { channels: 1, model: ColorModel::Monochrome, integer: false, writable: true })
    } else if p == pf::R8UINT || p == pf::R8SINT || p == pf::R16UINT || p == pf::R16SINT || p == pf::R32UINT
        || p == pf::R32SINT {
        Some(FormatTraits { channels: 1, model: ColorModel::Monochrome, integer: true, writable: true })
    } else if p == pf::RG8UNORM || p == pf::RG8UNORM_SRGB || p == pf::RG8SNORM || p == pf::RG16UNORM
        || p == pf::RG16SNORM || p == pf::RG16FLOAT || p == pf::RG32FLOAT {
        Some(FormatTraits { channels: 2, model: ColorModel::TwoChannel, integer: false, writable: true })
    } else if p == pf::RG8UINT || p == pf::RG8SINT || p == pf::RG16UINT || p == pf::RG16SINT
        || p == pf::RG32UINT || p == pf::RG32SINT {
        Some(FormatTraits { channels: 2, model: ColorModel::TwoChannel, integer: true, writable: true })
    } else if p == pf::RG11B10FLOAT || p == pf::RGB9E5FLOAT || p == pf::BGR10_XR || p == pf::BGR10_XR_SRGB {
        Some(FormatTraits { channels: 3, model: ColorModel::Rgb, integer: false, writable: true })
    } else if p == pf::B5G6R5UNORM {
        Some(FormatTraits { channels: 3, model: ColorModel::Rgb, integer: false, writable: false })
    } else if p == pf::RGBA8UNORM || p == pf::RGBA8UNORM_SRGB || p == pf::RGBA8SNORM || p == pf::BGRA8UNORM
        || p == pf::BGRA8UNORM_SRGB || p == pf::RGBA16UNORM || p == pf::RGBA16SNORM || p == pf::RGBA16FLOAT
        || p == pf::RGBA32FLOAT || p == pf::RGB10A2UNORM || p == pf::BGR10A2UNORM || p == pf::BGRA10_XR
        || p == pf::BGRA10_XR_SRGB {
        Some(FormatTraits { channels: 4, model: ColorModel::Rgb, integer: false, writable: true })
    } else if p == pf::A1BGR5UNORM || p == pf::ABGR4UNORM || p == pf::BGR5A1UNORM {
        Some(FormatTraits { channels: 4, model: ColorModel::Rgb, integer: false, writable: false })
    } else if p == pf::RGBA8UINT || p == pf::RGBA8SINT || p == pf::RGBA16UINT || p == pf::RGBA16SINT
        || p == pf::RGBA32UINT || p == pf::RGBA32SINT || p == pf::RGB10A2UINT {
        Some(FormatTraits { channels: 4, model: ColorModel::Rgb, integer: true, writable: true })
    } else {
        None
    }
}

/// The channel count, color model, integer-ness and writability of a pixel format.
pub fn format_traits(pixel_format: usize) -> (r: Option<FormatTraits>)
    ensures
        r == format_traits_spec(pixel_format),
{
    let p = pixel_format;
    if p == pf::A8UNORM {
        Some(FormatTraits { channels: 1, model: ColorModel::Alpha, integer: false, writable: true })
    } else if p == pf::R8UNORM || p == pf::R8UNORM_SRGB || p == pf::R8SNORM || p == pf::R16UNORM
        || p == pf::R16SNORM || p == pf::R16FLOAT || p == pf::R32FLOAT {
        Some(FormatTraits { channels: 1, model: ColorModel::Monochrome, integer: false, writable: true })
    } else if p == pf::R8UINT || p == pf::R8SINT || p == pf::R16UINT || p == pf::R16SINT || p == pf::R32UINT
        || p == pf::R32SINT {
        Some(FormatTraits { channels: 1, model: ColorModel::Monochrome, integer: true, writable: true })
    } else if p == pf::RG8UNORM || p == pf::RG8UNORM_SRGB || p == pf::RG8SNORM || p == pf::RG16UNORM
        || p == pf::RG16SNORM || p == pf::RG16FLOAT || p == pf::RG32FLOAT {
        Some(FormatTraits { channels: 2, model: ColorModel::TwoChannel, integer: false, writable: true })
    } else if p == pf::RG8UINT || p == pf::RG8SINT || p == pf::RG16UINT || p == pf::RG16SINT
        || p == pf::RG32UINT || p == pf::RG32SINT {
        Some(FormatTraits { channels: 2, model: ColorModel::TwoChannel, integer: true, writable: true })
    } else if p == pf::RG11B10FLOAT || p == pf::RGB9E5FLOAT || p == pf::BGR10_XR || p == pf::BGR10_XR_SRGB {
        Some(FormatTraits { channels: 3, model: ColorModel::Rgb, integer: false, writable: true })
    } else if p == pf::B5G6R5UNORM {
        Some(FormatTraits { channels: 3, model: ColorModel::Rgb, integer: false, writable: false })
    } else if p == pf::RGBA8UNORM || p == pf::RGBA8UNORM_SRGB || p == pf::RGBA8SNORM || p == pf::BGRA8UNORM
        || p == pf::BGRA8UNORM_SRGB || p == pf::RGBA16UNORM || p == pf::RGBA16SNORM || p == pf::RGBA16FLOAT
        || p == pf::RGBA32FLOAT || p == pf::RGB10A2UNORM || p == pf::BGR10A2UNORM || p == pf::BGRA10_XR
        || p == pf::BGRA10_XR_SRGB {
        Some(FormatTraits { channels: 4, model: ColorModel::Rgb, integer: false, writable: true })
    } else if p == pf::A1BGR5UNORM || p == pf::ABGR4UNORM || p == pf::BGR5A1UNORM {
        Some(FormatTraits { channels: 4, model: ColorModel::Rgb, integer: false, writable: false })
    } else if p == pf::RGBA8UINT || p == pf::RGBA8SINT || p == pf::RGBA16UINT || p == pf::RGBA16SINT
        || p == pf::RGBA32UINT || p == pf::RGBA32SINT || p == pf::RGB10A2UINT {
        Some(FormatTraits { channels: 4, model: ColorModel::Rgb, integer: true, writable: true })
    } else {
        None
    }
}

/// Whether `MPSImageHistogram` can read a source of this pixel format:
/// any known color format but alpha-only.
pub open spec fn histogram_supported_spec(pixel_format: usize) -> bool {
    format_traits_spec(pixel_format) matches Some(t) && t.model != ColorModel::Alpha
}

/// Whether `MPSImageHistogram` can read a source of this pixel format.
pub fn histogram_source_supported(pixel_format: usize) -> (r: bool)
    ensures
        r == histogram_supported_spec(pixel_format),
{
    match format_traits(pixel_format) {
        Some(traits) => traits.model != ColorModel::Alpha,
        None => false,
    }
}

/// What the rules read of a texture or image handed to a kernel.
#[derive(Clone, Copy, Debug)]
pub struct Operand {
    /// Identity of the backing `MTLTexture` (its address); equal for views of one texture.
    pub texture: usize,
    pub pixel_format: usize,
    pub width: usize,
    pub height: usize,
    pub texture_type: usize,
    pub array_length: usize,
    pub usage: usize,
    /// The feature channels of an `MPSImage`; `None` for a bare texture.
    pub feature_channels: Option<usize>,
}

/// How the destination's channels must relate to the source's.
#[derive(Clone, Copy, Debug, PartialEq, Eq, Structural)]
pub enum ChannelRule {
    SameColorModel,
    SameChannelsOrMonochromeDestination,
    Any,
    SameChannelCount,
}

/// The operand rules of a group of unary image kernels.
#[derive(Clone, Copy, Debug)]
pub struct UnaryRules {
    pub channels: ChannelRule,
    pub alpha: bool,
    pub min_clip_width: usize,
}

/// The rules of a kernel group.
pub open spec fn rules(channels: ChannelRule, alpha: bool, min_clip_width: usize) -> UnaryRules {
    UnaryRules { channels, alpha, min_clip_width }
}

/// Blur, box, convolution, scaling and row reductions.
pub fn spatial() -> (r: UnaryRules)
    ensures
        r == rules(ChannelRule::SameColorModel, true, 0),
{
    UnaryRules { channels: ChannelRule::SameColorModel, alpha: true, min_clip_width: 0 }
}

/// The median filter, which refuses alpha-only formats.
pub fn median() -> (r: UnaryRules)
    ensures
        r == rules(ChannelRule::SameColorModel, false, 0),
{
    UnaryRules { channels: ChannelRule::SameColorModel, alpha: false, min_clip_width: 0 }
}

/// Sobel, which may reduce to a single channel.
pub fn sobel() -> (r: UnaryRules)
    ensures
        r == rules(ChannelRule::SameChannelsOrMonochromeDestination, true, 0),
{
    UnaryRules { channels: ChannelRule::SameChannelsOrMonochromeDestination, alpha: true, min_clip_width: 0 }
}

/// Thresholding, which converts any channel layout.
pub fn threshold() -> (r: UnaryRules)
    ensures
        r == rules(ChannelRule::Any, true, 0),
{
    UnaryRules { channels: ChannelRule::Any, alpha: true, min_clip_width: 0 }
}

/// The mean statistics kernel.
pub fn mean() -> (r: UnaryRules)
    ensures
        r == rules(ChannelRule::SameChannelCount, false, 0),
{
    UnaryRules { channels: ChannelRule::SameChannelCount, alpha: false, min_clip_width: 0 }
}

/// The min-and-max statistics kernel, which writes two pixels.
pub fn min_and_max() -> (r: UnaryRules)
    ensures
        r == rules(ChannelRule::SameChannelCount, false, 2),
{
    UnaryRules { channels: ChannelRule::SameChannelCount, alpha: false, min_clip_width: 2 }
}

/// The most feature channels a unary kernel's images may have.
pub const MAX_UNARY_FEATURE_CHANNELS: usize = 4;

/// What `filterable` returns.
pub open spec fn filterable_spec(operand: Operand, name: &'static str, alpha: bool) -> Result<FormatTraits> {
    match format_traits_spec(operand.pixel_format) {
        Some(t) => if !t.integer && (alpha || t.model != ColorModel::Alpha) {
            Ok(t)
        } else {
            Err(Error::UnsupportedPixelFormat { operand: name, pixel_format: operand.pixel_format })
        },
        None => Err(Error::UnsupportedPixelFormat { operand: name, pixel_format: operand.pixel_format }),
    }
}

/// The traits of a normalized or floating-point format (alpha-only formats
/// only when `alpha`), or `UnsupportedPixelFormat` naming the operand.
pub fn filterable(operand: &Operand, name: &'static str, alpha: bool) -> (r: Result<FormatTraits>)
    ensures
        r == filterable_spec(*operand, name, alpha),
{
    match format_traits(operand.pixel_format) {
        Some(traits) => {
            if !traits.integer && (alpha || traits.model != ColorModel::Alpha) {
                Ok(traits)
            } else {
                Err(Error::UnsupportedPixelFormat { operand: name, pixel_format: operand.pixel_format })
            }
        },
        None => Err(Error::UnsupportedPixelFormat { operand: name, pixel_format: operand.pixel_format }),
    }
}

/// Whether a usage includes `SHADER_READ`.
pub open spec fn shader_readable(usage: usize) -> bool {
    usage & texture_usage::SHADER_READ != 0
}

/// Whether a usage includes `SHADER_WRITE`.
pub open spec fn shader_writable(usage: usize) -> bool {
    usage & texture_usage::SHADER_WRITE != 0
}

/// What `ensure_writable` returns.
pub open spec fn writable_spec(destination: Operand, traits: FormatTraits) -> Result<()> {
    if !traits.writable {
        Err(Error::UnsupportedPixelFormat { operand: "destination", pixel_format: destination.pixel_format })
    } else if !shader_writable(destination.usage) {
        Err(Error::InvalidArgument("the destination texture needs texture_usage::SHADER_WRITE"))
    } else {
        Ok(())
    }
}

/// Refuses packed 16-bit destination formats and destinations shaders cannot write.
pub fn ensure_writable(destination: &Operand, traits: FormatTraits) -> (r: Result<()>)
    ensures
        r == writable_spec(*destination, traits),
{
    if !traits.writable {
        return Err(Error::UnsupportedPixelFormat { operand: "destination", pixel_format: destination.pixel_format });
    }
    if destination.usage & texture_usage::SHADER_WRITE == 0 {
        return Err(Error::InvalidArgument("the destination texture needs texture_usage::SHADER_WRITE"));
    }
    Ok(())
}

/// What `ensure_readable` returns.
pub open spec fn readable_spec(source: Operand) -> Result<()> {
    if !shader_readable(source.usage) {
        Err(Error::InvalidArgument("source textures need texture_usage::SHADER_READ"))
    } else {
        Ok(())
    }
}

/// Refuses sources shaders cannot read.
pub fn ensure_readable(source: &Operand) -> (r: Result<()>)
    ensures
        r == readable_spec(*source),
{
    if source.usage & texture_usage::SHADER_READ == 0 {
        return Err(Error::InvalidArgument("source textures need texture_usage::SHADER_READ"));
    }
    Ok(())
}

/// What `ensure_distinct` returns.
pub open spec fn distinct_spec(source: Operand, destination: Operand) -> Result<()> {
    if source.texture == destination.texture {
        Err(Error::InvalidArgument("the destination may not alias a source; these kernels do not run in place"))
    } else {
        Ok(())
    }
}

/// Refuses a destination backed by the same texture as a source.
pub fn ensure_distinct(source: &Operand, destination: &Operand) -> (r: Result<()>)
    ensures
        r == distinct_spec(*source, *destination),
{
    if source.texture == destination.texture {
        return Err(Error::InvalidArgument(
            "the destination may not alias a source; these kernels do not run in place",
        ));
    }
    Ok(())
}

/// What `ensure_same_type` returns.
pub open spec fn same_type_spec(first: Operand, second: Operand) -> Result<()> {
    if !(first.texture_type == texture_type::TYPE_2D || first.texture_type == texture_type::TYPE_2D_ARRAY)
        || first.texture_type != second.texture_type {
        Err(Error::InvalidArgument("image kernels need 2D or 2D-array textures of the same type"))
    } else {
        Ok(())
    }
}

/// Refuses operands that are not both 2D, or both 2D-array, textures.
pub fn ensure_same_type(first: &Operand, second: &Operand) -> (r: Result<()>)
    ensures
        r == same_type_spec(*first, *second),
{
    if !(first.texture_type == texture_type::TYPE_2D || first.texture_type == texture_type::TYPE_2D_ARRAY)
        || first.texture_type != second.texture_type {
        return Err(Error::InvalidArgument("image kernels need 2D or 2D-array textures of the same type"));
    }
    Ok(())
}

/// The part of `[origin, origin + size)` that lies below `limit`, as a length.
pub open spec fn clipped_extent_spec(origin: usize, size: usize, limit: usize) -> usize {
    let end: int = if origin + size > usize::MAX { usize::MAX as int } else { origin + size };
    let clipped: int = if end <= limit { end } else { limit as int };
    if clipped - origin < 0 { 0 } else { (clipped - origin) as usize }
}

/// The length of the part of a clip interval that lies inside a destination of `limit` pixels.
pub fn clipped_extent(origin: usize, size: usize, limit: usize) -> (r: usize)
    ensures
        r == clipped_extent_spec(origin, size, limit),
{
    let end = origin.saturating_add(size);
    let clipped = if end <= limit { end } else { limit };
    clipped.saturating_sub(origin)
}

/// Whether the destination's channels suit the source's under `rule`.
pub open spec fn channels_compatible(rule: ChannelRule, source: FormatTraits, destination: FormatTraits) -> bool {
    match rule {
        ChannelRule::SameColorModel => source.model == destination.model,
        ChannelRule::SameChannelsOrMonochromeDestination => destination.model == ColorModel::Monochrome
            || (source.model == destination.model && source.channels == destination.channels),
        ChannelRule::Any => true,
        ChannelRule::SameChannelCount => source.channels == destination.channels,
    }
}

/// The refusal for channels that do not suit `rule`.
pub open spec fn channel_message(rule: ChannelRule) -> &'static str {
    match rule {
        ChannelRule::SameChannelsOrMonochromeDestination => "the destination needs the source's channels or a single channel",
        ChannelRule::SameChannelCount => "the destination needs as many channels as the source",
        _ => "source and destination color models differ; the kernel does not convert them",
    }
}

/// Whether an operand has more feature channels than a unary kernel takes.
pub open spec fn too_many_channels(operand: Operand) -> bool {
    operand.feature_channels matches Some(c) && c > MAX_UNARY_FEATURE_CHANNELS
}

impl UnaryRules {
    /// Whether the kernel writes a fixed-size result that the clip rectangle must hold.
    pub fn needs_clip_rect(self) -> (r: bool)
        ensures
            r == (self.min_clip_width > 0),
    {
        self.min_clip_width > 0
    }

    /// What `check` returns: the first rule the operands break.
    pub open spec fn check_spec(self, source: Operand, destination: Operand, clip_rect: Option<ImageRegion>) -> Result<()> {
        let source_traits = filterable_spec(source, "source", self.alpha);
        let destination_traits = filterable_spec(destination, "destination", self.alpha);
        if source_traits is Err {
            Err(source_traits->Err_0)
        } else if destination_traits is Err {
            Err(destination_traits->Err_0)
        } else if writable_spec(destination, destination_traits->Ok_0) is Err {
            writable_spec(destination, destination_traits->Ok_0)
        } else if readable_spec(source) is Err {
            readable_spec(source)
        } else if distinct_spec(source, destination) is Err {
            distinct_spec(source, destination)
        } else if same_type_spec(source, destination) is Err {
            same_type_spec(source, destination)
        } else if source.texture_type == texture_type::TYPE_2D_ARRAY && source.array_length != destination.array_length {
            Err(Error::DimensionMismatch {
                field: "destination array_length",
                expected: source.array_length,
                actual: destination.array_length,
            })
        } else if too_many_channels(source) || too_many_channels(destination) {
            Err(Error::InvalidArgument("unary image kernels take images with at most 4 feature channels"))
        } else if !channels_compatible(self.channels, source_traits->Ok_0, destination_traits->Ok_0) {
            Err(Error::InvalidArgument(channel_message(self.channels)))
        } else if self.min_clip_width > 0 {
            match clip_rect {
                None => Err(Error::Rejected("MPSUnaryImageKernel clip rectangle query")),
                Some(clip) => {
                    let width = clipped_extent_spec(clip.x, clip.width, destination.width);
                    let height = clipped_extent_spec(clip.y, clip.height, destination.height);
                    if width < self.min_clip_width || height == 0 {
                        Err(Error::DimensionMismatch {
                            field: "clipped destination width",
                            expected: self.min_clip_width,
                            actual: width,
                        })
                    } else {
                        Ok(())
                    }
                },
            }
        } else {
            Ok(())
        }
    }

    /// Checks a source and destination against this kernel group's rules
    /// before encoding; `clip_rect` is the kernel's clip rectangle, needed
    /// only by kernels with a minimum clipped width.
    pub fn check(self, source: &Operand, destination: &Operand, clip_rect: Option<ImageRegion>) -> (r: Result<()>)
        ensures
            r == self.check_spec(*source, *destination, clip_rect),
    {
        let source_traits = match filterable(source, "source", self.alpha) {
            Ok(traits) => traits,
            Err(error) => return Err(error),
        };
        let destination_traits = match filterable(destination, "destination", self.alpha) {
            Ok(traits) => traits,
            Err(error) => return Err(error),
        };
        let step = ensure_writable(destination, destination_traits);
        if step.is_err() {
            return step;
        }
        let step = ensure_readable(source);
        if step.is_err() {
            return step;
        }
        let step = ensure_distinct(source, destination);
        if step.is_err() {
            return step;
        }
        let step = ensure_same_type(source, destination);
        if step.is_err() {
            return step;
        }
        if source.texture_type == texture_type::TYPE_2D_ARRAY && source.array_length != destination.array_length {
            return Err(Error::DimensionMismatch {
                field: "destination array_length",
                expected: source.array_length,
                actual: destination.array_length,
            });
        }
        let source_wide = match source.feature_channels {
            Some(channels) => channels > MAX_UNARY_FEATURE_CHANNELS,
            None => false,
        };
        let destination_wide = match destination.feature_channels {
            Some(channels) => channels > MAX_UNARY_FEATURE_CHANNELS,
            None => false,
        };
        if source_wide || destination_wide {
            return Err(Error::InvalidArgument("unary image kernels take images with at most 4 feature channels"));
        }
        let compatible = match self.channels {
            ChannelRule::SameColorModel => source_traits.model == destination_traits.model,
            ChannelRule::SameChannelsOrMonochromeDestination => destination_traits.model == ColorModel::Monochrome
                || (source_traits.model == destination_traits.model
                    && source_traits.channels == destination_traits.channels),
            ChannelRule::Any => true,
            ChannelRule::SameChannelCount => source_traits.channels == destination_traits.channels,
        };
        if !compatible {
            return Err(Error::InvalidArgument(match self.channels {
                ChannelRule::SameChannelsOrMonochromeDestination => {
                    "the destination needs the source's channels or a single channel"
                },
                ChannelRule::SameChannelCount => "the destination needs as many channels as the source",
                _ => "source and destination color models differ; the kernel does not convert them",
            }));
        }
        if self.needs_clip_rect() {
            let clip = match clip_rect {
                Some(clip) => clip,
                None => return Err(Error::Rejected("MPSUnaryImageKernel clip rectangle query")),
            };
            let width = clipped_extent(clip.x, clip.width, destination.width);
            let height = clipped_extent(clip.y, clip.height, destination.height);
            if width < self.min_clip_width || height == 0 {
                return Err(Error::DimensionMismatch {
                    field: "clipped destination width",
                    expected: self.min_clip_width,
                    actual: width,
                });
            }
        }
        Ok(())
    }
}

/// What `check_binary` returns.
pub open spec fn binary_spec(primary: Operand, secondary: Operand, destination: Operand) -> Result<()> {
    let primary_traits = filterable_spec(primary, "primary", true);
    let secondary_traits = filterable_spec(secondary, "secondary", true);
    let destination_traits = filterable_spec(destination, "destination", true);
    if primary_traits is Err {
        Err(primary_traits->Err_0)
    } else if secondary_traits is Err {
        Err(secondary_traits->Err_0)
    } else if destination_traits is Err {
        Err(destination_traits->Err_0)
    } else if writable_spec(destination, destination_traits->Ok_0) is Err {
        writable_spec(destination, destination_traits->Ok_0)
    } else if readable_spec(primary) is Err {
        readable_spec(primary)
    } else if readable_spec(secondary) is Err {
        readable_spec(secondary)
    } else if distinct_spec(primary, destination) is Err {
        distinct_spec(primary, destination)
    } else if distinct_spec(secondary, destination) is Err {
        distinct_spec(secondary, destination)
    } else if same_type_spec(primary, secondary) is Err {
        same_type_spec(primary, secondary)
    } else if same_type_spec(primary, destination) is Err {
        same_type_spec(primary, destination)
    } else if (primary_traits->Ok_0).model != (destination_traits->Ok_0).model {
        Err(Error::InvalidArgument("primary and destination color models differ; the kernel does not convert them"))
    } else {
        Ok(())
    }
}

/// Checks the operands of a binary kernel (`ImageAdd`) before encoding.
pub fn check_binary(primary: &Operand, secondary: &Operand, destination: &Operand) -> (r: Result<()>)
    ensures
        r == binary_spec(*primary, *secondary, *destination),
{
    let primary_traits = match filterable(primary, "primary", true) {
        Ok(traits) => traits,
        Err(error) => return Err(error),
    };
    match filterable(secondary, "secondary", true) {
        Ok(_) => {},
        Err(error) => return Err(error),
    }
    let destination_traits = match filterable(destination, "destination", true) {
        Ok(traits) => traits,
        Err(error) => return Err(error),
    };
    let step = ensure_writable(destination, destination_traits);
    if step.is_err() {
        return step;
    }
    let step = ensure_readable(primary);
    if step.is_err() {
        return step;
    }
    let step = ensure_readable(secondary);
    if step.is_err() {
        return step;
    }
    let step = ensure_distinct(primary, destination);
    if step.is_err() {
        return step;
    }
    let step = ensure_distinct(secondary, destination);
    if step.is_err() {
        return step;
    }
    let step = ensure_same_type(primary, secondary);
    if step.is_err() {
        return step;
    }
    let step = ensure_same_type(primary, destination);
    if step.is_err() {
        return step;
    }
    if primary_traits.model != destination_traits.model {
        return Err(Error::InvalidArgument(
            "primary and destination color models differ; the kernel does not convert them",
        ));
    }
    Ok(())
}

/// What `check_histogram_source` returns.
pub open spec fn histogram_source_spec(source: Operand) -> Result<()> {
    if !histogram_supported_spec(source.pixel_format) {
        Err(Error::UnsupportedPixelFormat { operand: "source", pixel_format: source.pixel_format })
    } else if source.texture_type != texture_type::TYPE_2D {
        Err(Error::InvalidArgument("MPSImageHistogram needs a 2D source texture"))
    } else {
        readable_spec(source)
    }
}

/// Checks a histogram source: a supported format, a 2D texture, readable by shaders.
pub fn check_histogram_source(source: &Operand) -> (r: Result<()>)
    ensures
        r == histogram_source_spec(*source),
{
    if !histogram_source_supported(source.pixel_format) {
        return Err(Error::UnsupportedPixelFormat { operand: "source", pixel_format: source.pixel_format });
    }
    if source.texture_type != texture_type::TYPE_2D {
        return Err(Error::InvalidArgument("MPSImageHistogram needs a 2D source texture"));
    }
    ensure_readable(source)
}

/// The clipped extent never exceeds the requested size, and a non-empty
/// one ends inside the destination.
pub proof fn lemma_clipped_extent_inside(origin: usize, size: usize, limit: usize)
    ensures
        clipped_extent_spec(origin, size, limit) <= size,
        clipped_extent_spec(origin, size, limit) > 0 ==> origin + clipped_extent_spec(origin, size, limit) <= limit,
{
}

/// A unary encode is only accepted on operands the kernel can take: known
/// normalized or float formats, a writable destination that aliases no
/// source, a readable source, matching 2D or 2D-array types, at most four
/// feature channels, channels that suit the kernel group, and, for
/// kernels with a minimum clip width, a clip rectangle that holds it.
pub proof fn lemma_accepted_unary_operands(rules: UnaryRules, source: Operand, destination: Operand, clip_rect: Option<ImageRegion>)
    requires
        rules.check_spec(source, destination, clip_rect) is Ok,
    ensures
        ({
            let s = format_traits_spec(source.pixel_format);
            let d = format_traits_spec(destination.pixel_format);
            &&& s is Some && !s.unwrap().integer
            &&& d is Some && !d.unwrap().integer && d.unwrap().writable
            &&& !rules.alpha ==> s.unwrap().model != ColorModel::Alpha && d.unwrap().model != ColorModel::Alpha
            &&& source.texture != destination.texture
            &&& shader_readable(source.usage) && shader_writable(destination.usage)
            &&& source.texture_type == destination.texture_type
            &&& (source.texture_type == texture_type::TYPE_2D || source.texture_type == texture_type::TYPE_2D_ARRAY)
            &&& source.texture_type == texture_type::TYPE_2D_ARRAY ==> source.array_length == destination.array_length
            &&& !too_many_channels(source) && !too_many_channels(destination)
            &&& channels_compatible(rules.channels, s.unwrap(), d.unwrap())
            &&& rules.min_clip_width > 0 ==> (clip_rect matches Some(clip)
                && clipped_extent_spec(clip.x, clip.width, destination.width) >= rules.min_clip_width
                && clipped_extent_spec(clip.y, clip.height, destination.height) > 0)
        }),
{
}

/// A binary encode is only accepted when the destination aliases neither
/// source, all three are filterable and of one 2D or 2D-array type, and
/// the destination keeps the primary's color model.
pub proof fn lemma_accepted_binary_operands(primary: Operand, secondary: Operand, destination: Operand)
    requires
        binary_spec(primary, secondary, destination) is Ok,
    ensures
        primary.texture != destination.texture,
        secondary.texture != destination.texture,
        shader_readable(primary.usage) && shader_readable(secondary.usage),
        shader_writable(destination.usage),
        primary.texture_type == secondary.texture_type,
        primary.texture_type == destination.texture_type,
        format_traits_spec(primary.pixel_format).unwrap().model == format_traits_spec(destination.pixel_format).unwrap().model,
        format_traits_spec(destination.pixel_format).unwrap().writable,
{
}

/// The traits of an integer format: those of its normalized counterpart,
/// marked integer.
pub open spec fn as_integer(traits: Option<FormatTraits>) -> Option<FormatTraits> {
    match traits {
        Some(t) => Some(FormatTraits { integer: true, ..t }),
        None => None,
    }
}

/// How pixel formats relate: swizzled, sRGB, signed, float and wider
/// variants of a layout are read alike, integer variants differ only in
/// being integer, and the representatives of each layout are classified by
/// their channels. Depth, stencil and invalid formats have no traits.
pub proof fn lemma_format_families_share_traits()
    ensures
        // The order of the color channels does not change what a kernel sees.
        format_traits_spec(pf::BGRA8UNORM) == format_traits_spec(pf::RGBA8UNORM),
        format_traits_spec(pf::BGRA8UNORM_SRGB) == format_traits_spec(pf::RGBA8UNORM_SRGB),
        format_traits_spec(pf::BGR10A2UNORM) == format_traits_spec(pf::RGB10A2UNORM),
        format_traits_spec(pf::BGRA10_XR) == format_traits_spec(pf::RGBA8UNORM),
        // An sRGB format is read like its linear format.
        format_traits_spec(pf::R8UNORM_SRGB) == format_traits_spec(pf::R8UNORM),
        format_traits_spec(pf::RG8UNORM_SRGB) == format_traits_spec(pf::RG8UNORM),
        format_traits_spec(pf::RGBA8UNORM_SRGB) == format_traits_spec(pf::RGBA8UNORM),
        format_traits_spec(pf::BGRA8UNORM_SRGB) == format_traits_spec(pf::BGRA8UNORM),
        format_traits_spec(pf::BGRA10_XR_SRGB) == format_traits_spec(pf::BGRA10_XR),
        format_traits_spec(pf::BGR10_XR_SRGB) == format_traits_spec(pf::BGR10_XR),
        // Signed-normalized, float and wider normalized formats are read like the 8-bit normalized one.
        format_traits_spec(pf::R8SNORM) == format_traits_spec(pf::R8UNORM),
        format_traits_spec(pf::R16UNORM) == format_traits_spec(pf::R8UNORM),
        format_traits_spec(pf::R16SNORM) == format_traits_spec(pf::R8UNORM),
        format_traits_spec(pf::R16FLOAT) == format_traits_spec(pf::R8UNORM),
        format_traits_spec(pf::R32FLOAT) == format_traits_spec(pf::R8UNORM),
        format_traits_spec(pf::RG8SNORM) == format_traits_spec(pf::RG8UNORM),
        format_traits_spec(pf::RG16UNORM) == format_traits_spec(pf::RG8UNORM),
        format_traits_spec(pf::RG16SNORM) == format_traits_spec(pf::RG8UNORM),
        format_traits_spec(pf::RG16FLOAT) == format_traits_spec(pf::RG8UNORM),
        format_traits_spec(pf::RG32FLOAT) == format_traits_spec(pf::RG8UNORM),
        format_traits_spec(pf::RGBA8SNORM) == format_traits_spec(pf::RGBA8UNORM),
        format_traits_spec(pf::RGBA16UNORM) == format_traits_spec(pf::RGBA8UNORM),
        format_traits_spec(pf::RGBA16SNORM) == format_traits_spec(pf::RGBA8UNORM),
        format_traits_spec(pf::RGBA16FLOAT) == format_traits_spec(pf::RGBA8UNORM),
        format_traits_spec(pf::RGBA32FLOAT) == format_traits_spec(pf::RGBA8UNORM),
        format_traits_spec(pf::RGB10A2UNORM) == format_traits_spec(pf::RGBA8UNORM),
        // An integer format has the channels of its normalized format and is marked integer.
        format_traits_spec(pf::R8UINT) == as_integer(format_traits_spec(pf::R8UNORM)),
        format_traits_spec(pf::R8SINT) == as_integer(format_traits_spec(pf::R8UNORM)),
        format_traits_spec(pf::R16UINT) == as_integer(format_traits_spec(pf::R8UNORM)),
        format_traits_spec(pf::R16SINT) == as_integer(format_traits_spec(pf::R8UNORM)),
        format_traits_spec(pf::R32UINT) == as_integer(format_traits_spec(pf::R8UNORM)),
        format_traits_spec(pf::R32SINT) == as_integer(format_traits_spec(pf::R8UNORM)),
        format_traits_spec(pf::RG8UINT) == as_integer(format_traits_spec(pf::RG8UNORM)),
        format_traits_spec(pf::RG8SINT) == as_integer(format_traits_spec(pf::RG8UNORM)),
        format_traits_spec(pf::RG16UINT) == as_integer(format_traits_spec(pf::RG8UNORM)),
        format_traits_spec(pf::RG16SINT) == as_integer(format_traits_spec(pf::RG8UNORM)),
        format_traits_spec(pf::RG32UINT) == as_integer(format_traits_spec(pf::RG8UNORM)),
        format_traits_spec(pf::RG32SINT) == as_integer(format_traits_spec(pf::RG8UNORM)),
        format_traits_spec(pf::RGBA8UINT) == as_integer(format_traits_spec(pf::RGBA8UNORM)),
        format_traits_spec(pf::RGBA8SINT) == as_integer(format_traits_spec(pf::RGBA8UNORM)),
        format_traits_spec(pf::RGBA16UINT) == as_integer(format_traits_spec(pf::RGBA8UNORM)),
        format_traits_spec(pf::RGBA16SINT) == as_integer(format_traits_spec(pf::RGBA8UNORM)),
        format_traits_spec(pf::RGBA32UINT) == as_integer(format_traits_spec(pf::RGBA8UNORM)),
        format_traits_spec(pf::RGBA32SINT) == as_integer(format_traits_spec(pf::RGBA8UNORM)),
        format_traits_spec(pf::RGB10A2UINT) == as_integer(format_traits_spec(pf::RGBA8UNORM)),
        // The three-channel formats, and the packed 16-bit ones kernels cannot write.
        format_traits_spec(pf::RGB9E5FLOAT) == format_traits_spec(pf::RG11B10FLOAT),
        format_traits_spec(pf::BGR10_XR) == format_traits_spec(pf::RG11B10FLOAT),
        format_traits_spec(pf::ABGR4UNORM) == format_traits_spec(pf::A1BGR5UNORM),
        format_traits_spec(pf::BGR5A1UNORM) == format_traits_spec(pf::A1BGR5UNORM),
        format_traits_spec(pf::A8UNORM)
            == Some(FormatTraits { channels: 1, model: ColorModel::Alpha, integer: false, writable: true }),
        format_traits_spec(pf::R8UNORM)
            == Some(FormatTraits { channels: 1, model: ColorModel::Monochrome, integer: false, writable: true }),
        format_traits_spec(pf::RG8UNORM)
            == Some(FormatTraits { channels: 2, model: ColorModel::TwoChannel, integer: false, writable: true }),
        format_traits_spec(pf::RG11B10FLOAT)
            == Some(FormatTraits { channels: 3, model: ColorModel::Rgb, integer: false, writable: true }),
        format_traits_spec(pf::B5G6R5UNORM)
            == Some(FormatTraits { channels: 3, model: ColorModel::Rgb, integer: false, writable: false }),
        format_traits_spec(pf::RGBA8UNORM)
            == Some(FormatTraits { channels: 4, model: ColorModel::Rgb, integer: false, writable: true }),
        format_traits_spec(pf::A1BGR5UNORM)
            == Some(FormatTraits { channels: 4, model: ColorModel::Rgb, integer: false, writable: false }),
        format_traits_spec(pf::INVALID) is None,
        format_traits_spec(pf::DEPTH16UNORM) is None,
        format_traits_spec(pf::DEPTH32FLOAT) is None,
        format_traits_spec(pf::STENCIL8) is None,
{
}

} // verus!
