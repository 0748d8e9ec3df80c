use crate::error::{Error, Result};
use crate::matrix::data_type;
use vstd::prelude::*;

pub mod cnn_accumulator_precision_option;
pub mod cnn_convolution_flags;
pub mod cnn_convolution_weights_layout;
pub mod nn_regularization_type;
mod raw_values;
pub mod rnn_bidirectional_combine_mode;
pub mod rnn_sequence_direction;

pub use self::raw_values::{
    CnnBatchNormalizationFlags, CnnBinaryConvolutionFlags, CnnBinaryConvolutionType, CnnConvolutionGradientOption,
    CnnLossType, CnnNeuronType, CnnReductionType, CnnWeightsQuantizationType, NNComparisonType, NNPaddingMethod,
    NNTrainingStyle, RnnMatrixId,
};

verus! {

/// The geometry of an `MPSCNNConvolutionDescriptor` that argument checks read.
#[derive(Debug, Clone, Copy)]
pub struct ConvolutionShape {
    pub kernel_width: usize,
    pub kernel_height: usize,
    pub input_feature_channels: usize,
    pub output_feature_channels: usize,
    pub groups: usize,
    pub stride_in_pixels_x: usize,
    pub stride_in_pixels_y: usize,
}

impl ConvolutionShape {
    /// The number of kernel weights MPS reads: outputs x height x width x
    /// inputs per group (a group count of 0 counting as 1), or `None` when
    /// the product overflows.
    pub open spec fn weights_spec(self) -> Option<usize> {
        let groups: int = if self.groups >= 1 { self.groups as int } else { 1 };
        let a = self.output_feature_channels * self.kernel_height;
        let b = a * self.kernel_width;
        let c = b * (self.input_feature_channels as int / groups);
        if a > usize::MAX || b > usize::MAX || c > usize::MAX {
            None
        } else {
            Some(c as usize)
        }
    }

    /// The number of kernel weights MPS reads for this geometry.
    pub fn required_weights(&self) -> (r: Option<usize>)
        ensures
            r == self.weights_spec(),
    {
        let groups = if self.groups >= 1 { self.groups } else { 1 };
        let per_group = self.input_feature_channels / groups;
        let a = match self.output_feature_channels.checked_mul(self.kernel_height) {
            Some(a) => a,
            None => return None,
        };
        let b = match a.checked_mul(self.kernel_width) {
            Some(b) => b,
            None => return None,
        };
        b.checked_mul(per_group)
    }

    /// What `check_arguments` returns.
    pub open spec fn arguments_spec(self, flags: usize, weights: usize, bias: Option<usize>) -> Result<()> {
        if self.kernel_width == 0 || self.kernel_height == 0 || self.input_feature_channels == 0
            || self.output_feature_channels == 0 {
            Err(Error::InvalidArgument("kernel sizes and feature channel counts must be at least 1"))
        } else if self.stride_in_pixels_x == 0 || self.stride_in_pixels_y == 0 {
            Err(Error::InvalidArgument("strides must be at least 1"))
        } else if flags != cnn_convolution_flags::NONE {
            Err(Error::InvalidArgument("cnn_convolution_flags::NONE is the only convolution flag"))
        } else if self.weights_spec() is None {
            Err(Error::Overflow)
        } else if weights < self.weights_spec().unwrap() {
            Err(Error::DimensionMismatch { field: "kernel_weights", expected: self.weights_spec().unwrap(), actual: weights })
        } else if bias matches Some(b) && b < self.output_feature_channels {
            Err(Error::DimensionMismatch { field: "bias_terms", expected: self.output_feature_channels, actual: bias.unwrap() })
        } else {
            Ok(())
        }
    }

    /// Checks the arguments of a convolution before MPS reads them: nonzero
    /// kernel sizes, channel counts and strides, no flags, at least as many
    /// kernel weights as the geometry reads, and, when bias terms are given,
    /// one per output channel.
    pub fn check_arguments(&self, flags: usize, weights: usize, bias: Option<usize>) -> (r: Result<()>)
        ensures
            r == self.arguments_spec(flags, weights, bias),
    {
        if self.kernel_width == 0 || self.kernel_height == 0 || self.input_feature_channels == 0
            || self.output_feature_channels == 0 {
            return Err(Error::InvalidArgument("kernel sizes and feature channel counts must be at least 1"));
        }
        if self.stride_in_pixels_x == 0 || self.stride_in_pixels_y == 0 {
            return Err(Error::InvalidArgument("strides must be at least 1"));
        }
        if flags != cnn_convolution_flags::NONE {
            return Err(Error::InvalidArgument("cnn_convolution_flags::NONE is the only convolution flag"));
        }
        let required = match self.required_weights() {
            Some(required) => required,
            None => return Err(Error::Overflow),
        };
        if weights < required {
            return Err(Error::DimensionMismatch { field: "kernel_weights", expected: required, actual: weights });
        }
        match bias {
            Some(b) => if b < self.output_feature_channels {
                return Err(Error::DimensionMismatch {
                    field: "bias_terms",
                    expected: self.output_feature_channels,
                    actual: b,
                });
            },
            None => {},
        }
        Ok(())
    }
}

/// What `check_groups` returns.
pub open spec fn groups_spec(input_feature_channels: usize, output_feature_channels: usize, groups: usize) -> Result<()> {
    if groups == 0 {
        Err(Error::InvalidArgument("groups must be at least 1"))
    } else if groups > input_feature_channels {
        Err(Error::InvalidArgument("groups exceeds the input feature channels"))
    } else if input_feature_channels % groups != 0 || output_feature_channels % groups != 0 {
        Err(Error::InvalidArgument("input and output feature channels must be divisible by groups"))
    } else if groups > 1 && ((input_feature_channels / groups) % 4 != 0 || (output_feature_channels / groups) % 4 != 0) {
        Err(Error::InvalidArgument("with several groups, each group needs a multiple of 4 input and output channels"))
    } else {
        Ok(())
    }
}

/// Checks a convolution group count before it is set: at least one group,
/// no more groups than input channels, channel counts that divide into the
/// groups, and, with several groups, a multiple of 4 channels per group.
pub fn check_groups(input_feature_channels: usize, output_feature_channels: usize, groups: usize) -> (r: Result<()>)
    ensures
        r == groups_spec(input_feature_channels, output_feature_channels, groups),
{
    if groups == 0 {
        return Err(Error::InvalidArgument("groups must be at least 1"));
    }
    if groups > input_feature_channels {
        return Err(Error::InvalidArgument("groups exceeds the input feature channels"));
    }
    if input_feature_channels % groups != 0 || output_feature_channels % groups != 0 {
        return Err(Error::InvalidArgument("input and output feature channels must be divisible by groups"));
    }
    if groups > 1 && ((input_feature_channels / groups) % 4 != 0 || (output_feature_channels / groups) % 4 != 0) {
        return Err(Error::InvalidArgument(
            "with several groups, each group needs a multiple of 4 input and output channels",
        ));
    }
    Ok(())
}

/// Whether a sequence encode pairs every source image with a destination.
pub fn sequence_lengths_match(sources: usize, destinations: usize) -> (r: bool)
    ensures
        r == (sources == destinations),
{
    sources == destinations
}

/// Checks a request to make an inference layer's recurrent outputs
/// temporary: temporary recurrent images carry read counts of their own
/// that MPS's validation cannot settle, so only `false` is accepted.
pub fn check_recurrent_output_is_temporary(value: bool) -> (r: Result<()>)
    ensures
        r == (if value {
            Err(Error::Unsupported("temporary recurrent outputs cannot be read back safely"))
        } else {
            Ok(())
        }),
{
    if value {
        Err(Error::Unsupported("temporary recurrent outputs cannot be read back safely"))
    } else {
        Ok(())
    }
}

/// Bytes per float32 weight or bias.
pub const WEIGHT_SIZE: usize = 4;

/// What `check_buffer_region` returns.
pub open spec fn buffer_region_spec(field: &'static str, buffer_length: usize, offset: usize, bytes: int) -> Result<()> {
    if offset % WEIGHT_SIZE != 0 {
        Err(Error::Misaligned { field, value: offset, alignment: WEIGHT_SIZE })
    } else if offset + bytes > usize::MAX {
        Err(Error::Overflow)
    } else if offset + bytes > buffer_length {
        Err(Error::BufferTooSmall { required: (offset + bytes) as usize, length: buffer_length })
    } else {
        Ok(())
    }
}

fn check_buffer_region(field: &'static str, buffer_length: usize, offset: usize, bytes: usize) -> (r: Result<()>)
    ensures
        r == buffer_region_spec(field, buffer_length, offset, bytes as int),
{
    if offset % WEIGHT_SIZE != 0 {
        return Err(Error::Misaligned { field, value: offset, alignment: WEIGHT_SIZE });
    }
    let required = match offset.checked_add(bytes) {
        Some(required) => required,
        None => return Err(Error::Overflow),
    };
    if required > buffer_length {
        return Err(Error::BufferTooSmall { required, length: buffer_length });
    }
    Ok(())
}

/// A buffer of `length` bytes read from byte `offset`.
#[derive(Debug, Clone, Copy)]
pub struct BufferRegion {
    pub length: usize,
    pub offset: usize,
}

impl ConvolutionShape {
    /// What `check_weights_and_biases` returns.
    pub open spec fn weights_and_biases_spec(self, weights: BufferRegion, biases: Option<BufferRegion>) -> Result<()> {
        match self.weights_spec() {
            None => Err(Error::Overflow),
            Some(count) => if count * WEIGHT_SIZE > usize::MAX {
                Err(Error::Overflow)
            } else {
                let checked = buffer_region_spec("weights_offset", weights.length, weights.offset, count * WEIGHT_SIZE);
                if checked is Err {
                    checked
                } else {
                    match biases {
                        None => Ok(()),
                        Some(b) => if self.output_feature_channels * WEIGHT_SIZE > usize::MAX {
                            Err(Error::Overflow)
                        } else {
                            buffer_region_spec("biases_offset", b.length, b.offset,
                                self.output_feature_channels * WEIGHT_SIZE)
                        },
                    }
                }
            },
        }
    }

    /// Checks float32 weight and bias buffers for this geometry: offsets are
    /// 4-byte aligned and each buffer holds every value MPS reads after its offset.
    pub fn check_weights_and_biases(&self, weights: BufferRegion, biases: Option<BufferRegion>) -> (r: Result<()>)
        ensures
            r == self.weights_and_biases_spec(weights, biases),
    {
        let count = match self.required_weights() {
            Some(count) => count,
            None => return Err(Error::Overflow),
        };
        let bytes = match count.checked_mul(WEIGHT_SIZE) {
            Some(bytes) => bytes,
            None => return Err(Error::Overflow),
        };
        let checked = check_buffer_region("weights_offset", weights.length, weights.offset, bytes);
        if checked.is_err() {
            return checked;
        }
        match biases {
            None => Ok(()),
            Some(b) => {
                let bias_bytes = match self.output_feature_channels.checked_mul(WEIGHT_SIZE) {
                    Some(bytes) => bytes,
                    None => return Err(Error::Overflow),
                };
                check_buffer_region("biases_offset", b.length, b.offset, bias_bytes)
            },
        }
    }

    /// Checks the images of a convolution encode: the source must have the
    /// input channels and the destination the output channels.
    pub fn check_images(&self, source_channels: usize, destination_channels: usize) -> (r: Result<()>)
        ensures
            r == (if source_channels != self.input_feature_channels {
                Err(Error::DimensionMismatch {
                    field: "source feature channels",
                    expected: self.input_feature_channels,
                    actual: source_channels,
                })
            } else if destination_channels != self.output_feature_channels {
                Err(Error::DimensionMismatch {
                    field: "destination feature channels",
                    expected: self.output_feature_channels,
                    actual: destination_channels,
                })
            } else {
                Ok(())
            }),
    {
        if source_channels != self.input_feature_channels {
            return Err(Error::DimensionMismatch {
                field: "source feature channels",
                expected: self.input_feature_channels,
                actual: source_channels,
            });
        }
        if destination_channels != self.output_feature_channels {
            return Err(Error::DimensionMismatch {
                field: "destination feature channels",
                expected: self.output_feature_channels,
                actual: destination_channels,
            });
        }
        Ok(())
    }
}

/// The first operand whose data type is not float32, at or after `index`.
pub open spec fn first_non_float(data_types: Seq<u32>, index: int) -> Option<int>
    decreases data_types.len() - index,
{
    if index >= data_types.len() || index < 0 {
        None
    } else if data_types[index] != data_type::FLOAT32 {
        Some(index)
    } else {
        first_non_float(data_types, index + 1)
    }
}

/// The first operand whose size differs from the first operand's, at or after `index`.
pub open spec fn first_size_mismatch(sizes: Seq<usize>, index: int) -> Option<int>
    decreases sizes.len() - index,
{
    if index >= sizes.len() || index < 1 {
        None
    } else if sizes[index] != sizes[0] {
        Some(index)
    } else {
        first_size_mismatch(sizes, index + 1)
    }
}

/// What `check_optimizer_operands` returns.
pub open spec fn optimizer_operands_spec(data_types: Seq<u32>, sizes: Seq<Seq<usize>>, fields: Seq<&'static str>) -> Result<()> {
    match first_non_float(data_types, 0) {
        Some(i) => Err(Error::UnsupportedDataType(data_types[i])),
        None => optimizer_sizes_spec(sizes, fields, 0),
    }
}

/// The first size (rows, then columns, ...) at or after `dimension` on which the operands differ.
pub open spec fn optimizer_sizes_spec(sizes: Seq<Seq<usize>>, fields: Seq<&'static str>, dimension: int) -> Result<()>
    decreases fields.len() - dimension,
{
    if dimension >= fields.len() || dimension < 0 {
        Ok(())
    } else {
        let column = sizes[dimension];
        match first_size_mismatch(column, 1) {
            Some(i) => Err(Error::DimensionMismatch { field: fields[dimension], expected: column[0], actual: column[i] }),
            None => optimizer_sizes_spec(sizes, fields, dimension + 1),
        }
    }
}

/// Checks the operands of an optimizer update: every operand is float32,
/// then, for each size in turn (`sizes[d][k]` is size `d` of operand `k`),
/// every operand has the first operand's size.
#[verifier::loop_isolation(false)]
pub fn check_optimizer_operands(data_types: &[u32], sizes: &[Vec<usize>], fields: &[&'static str]) -> (r: Result<()>)
    requires
        sizes@.len() == fields@.len(),
        forall|d: int| 0 <= d < sizes@.len() ==> (#[trigger] sizes@[d])@.len() == data_types@.len(),
        data_types@.len() >= 1,
    ensures
        r == optimizer_operands_spec(data_types@, sizes@.map_values(|v: Vec<usize>| v@), fields@),
{
    let ghost all = sizes@.map_values(|v: Vec<usize>| v@);
    let mut k: usize = 0;
    while k < data_types.len()
        invariant
            k <= data_types@.len(),
            first_non_float(data_types@, 0) == first_non_float(data_types@, k as int),
        decreases data_types@.len() - k,
    {
        if data_types[k] != data_type::FLOAT32 {
            return Err(Error::UnsupportedDataType(data_types[k]));
        }
        k = k + 1;
    }
    let mut d: usize = 0;
    while d < sizes.len()
        invariant
            d <= sizes@.len(),
            sizes@.len() == fields@.len(),
            all == sizes@.map_values(|v: Vec<usize>| v@),
            forall|e: int| 0 <= e < sizes@.len() ==> (#[trigger] sizes@[e])@.len() == data_types@.len(),
            data_types@.len() >= 1,
            optimizer_sizes_spec(all, fields@, 0) == optimizer_sizes_spec(all, fields@, d as int),
        decreases sizes@.len() - d,
    {
        let column = &sizes[d];
        proof {
            assert(all[d as int] == column@);
        }
        let mut i: usize = 1;
        while i < column.len()
            invariant
                1 <= i <= column@.len(),
                column@.len() >= 1,
                first_size_mismatch(column@, 1) == first_size_mismatch(column@, i as int),
            decreases column@.len() - i,
        {
            if column[i] != column[0] {
                return Err(Error::DimensionMismatch { field: fields[d], expected: column[0], actual: column[i] });
            }
            i = i + 1;
        }
        d = d + 1;
    }
    Ok(())
}

/// Whether a graph encode gets exactly the source images the graph needs.
pub fn source_images_match(needed: usize, given: usize) -> (r: bool)
    ensures
        r == (needed == given),
{
    needed == given
}

/// MPS reads one weight per output channel, kernel row, kernel column and
/// input channel of the group: the weight count is that product whenever
/// it is counted at all, it is counted whenever its partial products fit,
/// and with every other argument valid a convolution is accepted exactly
/// when at least that many weights are given.
pub proof fn lemma_weights_cover_every_kernel_tap(shape: ConvolutionShape, weights: usize)
    ensures
        ({
            let groups: int = if shape.groups >= 1 { shape.groups as int } else { 1 };
            let taps = shape.output_feature_channels * shape.kernel_height * shape.kernel_width
                * (shape.input_feature_channels as int / groups);
            &&& shape.weights_spec() matches Some(n) ==> n == taps
            &&& (shape.output_feature_channels * shape.kernel_height <= usize::MAX
                && shape.output_feature_channels * shape.kernel_height * shape.kernel_width <= usize::MAX
                && taps <= usize::MAX) ==> shape.weights_spec() is Some
            &&& (shape.kernel_width >= 1 && shape.kernel_height >= 1 && shape.input_feature_channels >= 1
                && shape.output_feature_channels >= 1 && shape.stride_in_pixels_x >= 1
                && shape.stride_in_pixels_y >= 1 && shape.weights_spec() is Some)
                ==> (shape.arguments_spec(cnn_convolution_flags::NONE, weights, None) is Ok <==> weights >= taps)
        }),
{
}

} // verus!
