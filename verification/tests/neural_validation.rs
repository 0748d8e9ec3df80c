use apple_mps::neural::{
    check_groups, check_optimizer_operands, sequence_lengths_match,
    source_images_match, BufferRegion, ConvolutionShape,
};
use apple_mps::{cnn_convolution_flags, data_type, Error};

fn shape(
    kernel_width: usize,
    kernel_height: usize,
    input: usize,
    output: usize,
    groups: usize,
) -> ConvolutionShape {
    ConvolutionShape {
        kernel_width,
        kernel_height,
        input_feature_channels: input,
        output_feature_channels: output,
        groups,
        stride_in_pixels_x: 1,
        stride_in_pixels_y: 1,
    }
}

fn convolution(descriptor: &ConvolutionShape, weights: usize) -> Result<(), Error> {
    descriptor.check_arguments(cnn_convolution_flags::NONE, weights, None)
}

#[test]
fn convolution_groups_must_divide_the_channels() {
    assert_eq!(
        check_groups(4, 4, 0),
        Err(Error::InvalidArgument("groups must be at least 1"))
    );
    assert_eq!(
        check_groups(4, 4, 8),
        Err(Error::InvalidArgument(
            "groups exceeds the input feature channels"
        ))
    );
    let not_divisible =
        Error::InvalidArgument("input and output feature channels must be divisible by groups");
    assert_eq!(check_groups(8, 8, 3), Err(not_divisible.clone()));
    assert_eq!(check_groups(8, 7, 2), Err(not_divisible));
    let per_group = Error::InvalidArgument(
        "with several groups, each group needs a multiple of 4 input and output channels",
    );
    assert_eq!(check_groups(4, 4, 2), Err(per_group.clone()));
    assert_eq!(check_groups(8, 6, 2), Err(per_group));
    check_groups(8, 8, 2).expect("valid groups");
    assert_eq!(
        convolution(&shape(1, 1, 8, 8, 2), 31),
        Err(Error::DimensionMismatch {
            field: "kernel_weights",
            expected: 32,
            actual: 31,
        })
    );
    convolution(&shape(1, 1, 8, 8, 2), 32).expect("two groups of four");
    convolution(&shape(1, 1, 3, 5, 1), 15).expect("one group of any size");
}

#[test]
fn convolution_descriptors_and_arguments_are_checked() {
    assert!(matches!(
        convolution(&shape(0, 1, 1, 1, 1), 1),
        Err(Error::InvalidArgument(_))
    ));
    assert!(matches!(
        convolution(&shape(1, 1, 0, 1, 1), 1),
        Err(Error::InvalidArgument(_))
    ));
    let strided = ConvolutionShape {
        stride_in_pixels_x: 0,
        ..shape(1, 1, 1, 1, 1)
    };
    assert_eq!(
        convolution(&strided, 1),
        Err(Error::InvalidArgument("strides must be at least 1"))
    );
    let valid = shape(1, 1, 1, 2, 1);
    assert!(matches!(
        valid.check_arguments(1, 2, None),
        Err(Error::InvalidArgument(_))
    ));
    assert_eq!(
        valid.check_arguments(cnn_convolution_flags::NONE, 2, Some(1)),
        Err(Error::DimensionMismatch {
            field: "bias_terms",
            expected: 2,
            actual: 1,
        })
    );
}

#[test]
fn weights_and_biases_buffers_are_checked() {
    let conv = shape(3, 3, 4, 4, 1);
    let region = |length: usize, offset: usize| BufferRegion { length, offset };
    assert_eq!(
        conv.check_weights_and_biases(region(4, 0), None),
        Err(Error::BufferTooSmall {
            required: 576,
            length: 4,
        })
    );
    assert_eq!(
        conv.check_weights_and_biases(region(576, 4), None),
        Err(Error::BufferTooSmall {
            required: 580,
            length: 576,
        })
    );
    assert_eq!(
        conv.check_weights_and_biases(region(576, 2), None),
        Err(Error::Misaligned {
            field: "weights_offset",
            value: 2,
            alignment: 4,
        })
    );
    assert_eq!(
        conv.check_weights_and_biases(region(576, 0), Some(region(16, 4))),
        Err(Error::BufferTooSmall {
            required: 20,
            length: 16,
        })
    );
    conv.check_weights_and_biases(region(576, 0), Some(region(16, 0)))
        .expect("exact fit");
    assert!(check_groups(4, 4, 0).is_err());
}

#[test]
fn convolution_encode_checks_image_channels() {
    let four = shape(1, 1, 4, 4, 1);
    assert_eq!(
        four.check_images(1, 4),
        Err(Error::DimensionMismatch {
            field: "source feature channels",
            expected: 4,
            actual: 1,
        })
    );
    assert_eq!(
        four.check_images(4, 1),
        Err(Error::DimensionMismatch {
            field: "destination feature channels",
            expected: 4,
            actual: 1,
        })
    );
    shape(1, 1, 1, 1, 1).check_images(1, 1).expect("matching channels");
}

#[test]
fn optimizer_inputs_must_share_shape_and_float32() {
    let f32s = [data_type::FLOAT32; 3];
    assert_eq!(
        check_optimizer_operands(&f32s, &[vec![4, 2, 4]], &["vector length"]),
        Err(Error::DimensionMismatch {
            field: "vector length",
            expected: 4,
            actual: 2,
        })
    );
    assert_eq!(
        check_optimizer_operands(&[data_type::FLOAT32; 4], &[vec![4, 4, 2, 4]], &["vector length"]),
        Err(Error::DimensionMismatch {
            field: "vector length",
            expected: 4,
            actual: 2,
        })
    );
    assert_eq!(
        check_optimizer_operands(&[data_type::INT32; 3], &[vec![4, 4, 4]], &["vector length"]),
        Err(Error::UnsupportedDataType(data_type::INT32))
    );
    assert_eq!(
        check_optimizer_operands(
            &f32s,
            &[vec![2, 4, 2], vec![2, 1, 2]],
            &["matrix rows", "matrix columns"]
        ),
        Err(Error::DimensionMismatch {
            field: "matrix rows",
            expected: 2,
            actual: 4,
        })
    );
    check_optimizer_operands(&f32s, &[vec![4, 4, 4]], &["vector length"]).expect("matching vectors");
}

#[test]
fn graph_encode_needs_every_source_image() {
    assert!(!source_images_match(1, 0));
    assert!(!source_images_match(1, 2));
    assert!(source_images_match(1, 1));
}

#[test]
fn sequence_encodes_pair_every_source_with_a_destination() {
    assert!(sequence_lengths_match(3, 3));
    assert!(!sequence_lengths_match(3, 2));
    assert!(sequence_lengths_match(0, 0));
}
