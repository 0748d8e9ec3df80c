use apple_mps::image::{check_float32_image, required_bytes, TransferTarget};
use apple_mps::metal::storage_mode;
use apple_mps::{
    feature_channel_format, image_layout, Error, ImageDescriptor, ImageReadWriteParams, ImageRegion,
};

fn float_image(width: usize, height: usize, channels: usize) -> TransferTarget {
    TransferTarget {
        width,
        height,
        feature_channels: channels,
        number_of_images: 1,
        channel_format: feature_channel_format::FLOAT32,
    }
}

#[test]
fn row_stride_shorter_than_a_row_is_rejected() {
    let image = float_image(4, 4, 1);
    assert_eq!(
        image.check_transfer(
            4,
            image_layout::HEIGHTxWIDTHxFEATURE_CHANNELS,
            1,
            ImageRegion::whole(4, 4),
            ImageReadWriteParams::all(1),
            0,
        ),
        Err(Error::DimensionMismatch {
            field: "bytes_per_row",
            expected: 16,
            actual: 1,
        })
    );
}

#[test]
fn planar_rows_need_one_row_per_channel_plane() {
    let image = float_image(4, 2, 3);
    assert_eq!(
        image.check_transfer(
            4 * 2 * 3 * 4,
            image_layout::FEATURE_CHANNELSxHEIGHTxWIDTH,
            8,
            ImageRegion::whole(4, 2),
            ImageReadWriteParams::all(3),
            0,
        ),
        Err(Error::DimensionMismatch {
            field: "bytes_per_row",
            expected: 16,
            actual: 8,
        })
    );
}

#[test]
fn destination_shorter_than_the_layout_is_rejected() {
    assert_eq!(
        float_image(4, 4, 1).check_transfer(
            63,
            image_layout::HEIGHTxWIDTHxFEATURE_CHANNELS,
            16,
            ImageRegion::whole(4, 4),
            ImageReadWriteParams::all(1),
            0,
        ),
        Err(Error::InvalidLength {
            expected: 64,
            actual: 63,
        })
    );
    assert_eq!(
        float_image(4, 4, 3).check_transfer(
            4 * 4 * 3 * 4 - 1,
            image_layout::FEATURE_CHANNELSxHEIGHTxWIDTH,
            16,
            ImageRegion::whole(4, 4),
            ImageReadWriteParams::all(3),
            0,
        ),
        Err(Error::InvalidLength {
            expected: 192,
            actual: 191,
        })
    );
}

#[test]
fn channel_windows_follow_the_mps_rules() {
    let image = float_image(1, 1, 6);
    let read = |offset: usize, count: usize| {
        image.check_transfer(
            64,
            image_layout::HEIGHTxWIDTHxFEATURE_CHANNELS,
            32,
            ImageRegion::whole(1, 1),
            ImageReadWriteParams::new(offset, count),
            0,
        )
    };
    assert_eq!(
        read(2, 4),
        Err(Error::Misaligned {
            field: "feature_channel_offset",
            value: 2,
            alignment: 4,
        })
    );
    assert!(matches!(read(0, 0), Err(Error::InvalidArgument(_))));
    assert!(matches!(read(0, 2), Err(Error::InvalidArgument(_))));
    assert!(matches!(read(4, 4), Err(Error::InvalidArgument(_))));
    assert!(matches!(read(0, usize::MAX), Err(Error::InvalidArgument(_))));
    image
        .check_transfer(
            24,
            image_layout::HEIGHTxWIDTHxFEATURE_CHANNELS,
            24,
            ImageRegion::whole(1, 1),
            ImageReadWriteParams::all(6),
            0,
        )
        .expect("write all channels");
    image
        .check_transfer(
            8,
            image_layout::HEIGHTxWIDTHxFEATURE_CHANNELS,
            8,
            ImageRegion::whole(1, 1),
            ImageReadWriteParams::new(4, 2),
            0,
        )
        .expect("the trailing window may be shorter than 4");
}

#[test]
fn regions_and_image_indices_must_fit() {
    let image = TransferTarget {
        number_of_images: 2,
        ..float_image(2, 2, 1)
    };
    let read = |region: ImageRegion, layout: usize, image_index: usize| {
        image.check_transfer(256, layout, 8, region, ImageReadWriteParams::all(1), image_index)
    };
    let chunky = image_layout::HEIGHTxWIDTHxFEATURE_CHANNELS;
    let expect_invalid = |result: apple_mps::Result<()>| {
        assert!(
            matches!(result, Err(Error::InvalidArgument(_))),
            "{result:?}"
        );
    };
    expect_invalid(read(ImageRegion::new(1, 0, 0, 2, 2, 1), chunky, 0));
    expect_invalid(read(ImageRegion::new(0, 1, 0, 2, 2, 1), chunky, 0));
    expect_invalid(read(ImageRegion::new(usize::MAX, 0, 0, 2, 2, 1), chunky, 0));
    expect_invalid(read(ImageRegion::new(0, 0, 1, 2, 2, 1), chunky, 0));
    expect_invalid(read(ImageRegion::new(0, 0, 0, 2, 2, 2), chunky, 0));
    expect_invalid(read(ImageRegion::new(0, 0, 0, 0, 2, 1), chunky, 0));
    expect_invalid(read(ImageRegion::whole(2, 2), chunky, 2));
    expect_invalid(read(ImageRegion::whole(2, 2), 7, 0));
    read(ImageRegion::whole(2, 2), chunky, 1).expect("second image");
}

#[test]
fn f32_helpers_need_a_float32_image() {
    assert!(matches!(
        check_float32_image(feature_channel_format::UNORM8),
        Err(Error::Unsupported(_))
    ));
    check_float32_image(feature_channel_format::FLOAT32).expect("float32 image");
    let image = TransferTarget {
        channel_format: feature_channel_format::UNORM8,
        ..float_image(2, 2, 1)
    };
    image
        .check_transfer(
            4,
            image_layout::HEIGHTxWIDTHxFEATURE_CHANNELS,
            2,
            ImageRegion::whole(2, 2),
            ImageReadWriteParams::all(1),
            0,
        )
        .expect("unorm8 rows are 2 bytes");
}

#[test]
fn invalid_image_descriptors_are_refused() {
    let valid = ImageDescriptor::new(2, 2, 1, feature_channel_format::FLOAT32);
    let invalid = [
        ImageDescriptor { width: 0, ..valid },
        ImageDescriptor { height: 0, ..valid },
        ImageDescriptor {
            width: 16_385,
            ..valid
        },
        ImageDescriptor {
            feature_channels: 0,
            ..valid
        },
        ImageDescriptor {
            number_of_images: 0,
            ..valid
        },
        ImageDescriptor {
            feature_channels: 8,
            number_of_images: 1_025,
            ..valid
        },
        ImageDescriptor {
            channel_format: feature_channel_format::NONE,
            ..valid
        },
        ImageDescriptor {
            channel_format: 9,
            ..valid
        },
        ImageDescriptor {
            storage_mode: storage_mode::MEMORYLESS,
            ..valid
        },
        ImageDescriptor {
            usage: 0x40,
            ..valid
        },
    ];
    for descriptor in invalid {
        assert!(!descriptor.is_valid(), "{descriptor:?} should be refused");
    }
    assert!(valid.is_valid());
    assert_eq!(valid.width, 2);
    assert_eq!(valid.feature_channels, 1);
}

#[test]
fn transfer_extents_refuse_to_wrap() {
    let region = ImageRegion::new(0, 0, 0, 4, usize::MAX, 2);
    assert_eq!(
        required_bytes(image_layout::HEIGHTxWIDTHxFEATURE_CHANNELS, 16, region, ImageReadWriteParams::all(1)),
        None
    );
    assert_eq!(
        required_bytes(
            image_layout::FEATURE_CHANNELSxHEIGHTxWIDTH,
            16,
            ImageRegion::whole(4, 4),
            ImageReadWriteParams::all(3)
        ),
        Some(192)
    );
}
