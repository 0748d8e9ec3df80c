use apple_mps::filter_rules::{
    check_binary, check_histogram_source, mean, median, min_and_max, sobel, spatial, threshold,
    Operand,
};
use apple_mps::filters::{
    box_kernel_size_valid, check_histogram_extent, check_histogram_format, check_histogram_offset,
    convolution_kernel_valid, histogram_entries_valid, median_diameter_valid,
};
use apple_mps::metal::{pixel_format, texture_type, texture_usage};
use apple_mps::{Error, ImageRegion};
use std::sync::atomic::{AtomicUsize, Ordering};

static NEXT_TEXTURE: AtomicUsize = AtomicUsize::new(1);

fn fresh() -> usize {
    NEXT_TEXTURE.fetch_add(1, Ordering::Relaxed)
}

fn texture(format: usize, width: usize, height: usize) -> Operand {
    Operand {
        texture: fresh(),
        pixel_format: format,
        width,
        height,
        texture_type: texture_type::TYPE_2D,
        array_length: 1,
        usage: texture_usage::SHADER_READ | texture_usage::SHADER_WRITE,
        feature_channels: None,
    }
}

fn array_texture(format: usize, layers: usize) -> Operand {
    Operand {
        texture_type: texture_type::TYPE_2D_ARRAY,
        array_length: layers,
        ..texture(format, 8, 8)
    }
}

fn image(feature_channels: usize) -> Operand {
    let format = match feature_channels {
        1 => pixel_format::R32FLOAT,
        2 => pixel_format::RG32FLOAT,
        _ => pixel_format::RGBA32FLOAT,
    };
    let slices = feature_channels.div_ceil(4);
    Operand {
        texture_type: if slices > 1 {
            texture_type::TYPE_2D_ARRAY
        } else {
            texture_type::TYPE_2D
        },
        array_length: slices,
        feature_channels: Some(feature_channels),
        ..texture(format, 8, 8)
    }
}

const fn unsupported(operand: &'static str, pixel_format: usize) -> Error {
    Error::UnsupportedPixelFormat {
        operand,
        pixel_format,
    }
}

#[test]
fn integer_formats_are_rejected() {
    let integer = texture(pixel_format::RGBA8UINT, 8, 8);
    let normalized = texture(pixel_format::RGBA8UNORM, 8, 8);
    assert_eq!(
        spatial().check(&integer, &normalized, None),
        Err(unsupported("source", pixel_format::RGBA8UINT))
    );
    assert_eq!(
        spatial().check(&normalized, &integer, None),
        Err(unsupported("destination", pixel_format::RGBA8UINT))
    );
    let mono_integer = texture(pixel_format::R32UINT, 8, 8);
    assert_eq!(
        threshold().check(&normalized, &mono_integer, None),
        Err(unsupported("destination", pixel_format::R32UINT))
    );
    assert_eq!(
        check_binary(&integer, &normalized, &normalized),
        Err(unsupported("primary", pixel_format::RGBA8UINT))
    );
    let other = texture(pixel_format::RGBA8UNORM, 8, 8);
    assert_eq!(
        check_binary(&normalized, &integer, &other),
        Err(unsupported("secondary", pixel_format::RGBA8UINT))
    );
}

#[test]
fn destinations_must_be_writable() {
    let source = texture(pixel_format::RGBA8UNORM, 8, 8);
    let depth = texture(pixel_format::DEPTH32FLOAT, 8, 8);
    assert_eq!(
        spatial().check(&source, &depth, None),
        Err(unsupported("destination", pixel_format::DEPTH32FLOAT))
    );
    let packed = texture(pixel_format::ABGR4UNORM, 8, 8);
    assert_eq!(
        spatial().check(&source, &packed, None),
        Err(unsupported("destination", pixel_format::ABGR4UNORM))
    );
    let read_only = Operand {
        usage: texture_usage::SHADER_READ,
        ..texture(pixel_format::RGBA8UNORM, 8, 8)
    };
    assert!(matches!(
        spatial().check(&source, &read_only, None),
        Err(Error::InvalidArgument(_))
    ));
    let write_only = Operand {
        usage: texture_usage::SHADER_WRITE,
        ..texture(pixel_format::RGBA8UNORM, 8, 8)
    };
    let destination = texture(pixel_format::RGBA8UNORM, 8, 8);
    assert!(matches!(
        spatial().check(&write_only, &destination, None),
        Err(Error::InvalidArgument(_))
    ));
}

#[test]
fn color_models_follow_each_kernel_group() {
    let rgba = texture(pixel_format::RGBA8UNORM, 8, 8);
    let rgb = texture(pixel_format::RG11B10FLOAT, 8, 8);
    let rg = texture(pixel_format::RG8UNORM, 8, 8);
    let mono = texture(pixel_format::R8UNORM, 8, 8);
    assert!(matches!(
        spatial().check(&rgba, &mono, None),
        Err(Error::InvalidArgument(_))
    ));
    assert!(matches!(
        spatial().check(&mono, &rg, None),
        Err(Error::InvalidArgument(_))
    ));
    assert!(matches!(
        median().check(&rg, &rgba, None),
        Err(Error::InvalidArgument(_))
    ));
    assert!(matches!(
        spatial().check(&mono, &rgba, None),
        Err(Error::InvalidArgument(_))
    ));
    assert!(matches!(
        sobel().check(&rgba, &rg, None),
        Err(Error::InvalidArgument(_))
    ));
    assert!(matches!(
        sobel().check(&rgba, &rgb, None),
        Err(Error::InvalidArgument(_))
    ));
    spatial()
        .check(&rgba, &rgb, None)
        .expect("RGB color models match");
    sobel()
        .check(&rgba, &mono, None)
        .expect("Sobel converts to a single channel");
    threshold()
        .check(&rg, &rgba, None)
        .expect("threshold accepts any channel count");
}

#[test]
fn statistics_need_matching_channels_and_room() {
    let source = texture(pixel_format::RGBA16FLOAT, 8, 8);
    let whole = |operand: &Operand| Some(ImageRegion::whole(operand.width, operand.height));
    let mono = texture(pixel_format::R16FLOAT, 2, 1);
    assert!(matches!(
        min_and_max().check(&source, &mono, whole(&mono)),
        Err(Error::InvalidArgument(_))
    ));
    let rgb = texture(pixel_format::RG11B10FLOAT, 2, 1);
    assert!(matches!(
        min_and_max().check(&source, &rgb, whole(&rgb)),
        Err(Error::InvalidArgument(_))
    ));
    let narrow = texture(pixel_format::RGBA16FLOAT, 1, 4);
    assert_eq!(
        min_and_max().check(&source, &narrow, whole(&narrow)),
        Err(Error::DimensionMismatch {
            field: "clipped destination width",
            expected: 2,
            actual: 1,
        })
    );
    let wide = texture(pixel_format::RGBA16FLOAT, 8, 1);
    assert!(matches!(
        min_and_max().check(&source, &wide, Some(ImageRegion::new(7, 0, 0, 4, 1, 1))),
        Err(Error::DimensionMismatch { actual: 1, .. })
    ));
    assert!(matches!(
        min_and_max().check(&source, &wide, Some(ImageRegion::new(100, 0, 0, 4, 1, 1))),
        Err(Error::DimensionMismatch { actual: 0, .. })
    ));
    min_and_max()
        .check(&source, &wide, Some(ImageRegion::new(6, 0, 0, 2, 1, 1)))
        .expect("two pixels fit");
    let single = texture(pixel_format::RGBA16FLOAT, 1, 1);
    mean()
        .check(&source, &single, None)
        .expect("the mean needs one pixel");
    let alpha = texture(pixel_format::A8UNORM, 8, 8);
    let alpha_destination = texture(pixel_format::A8UNORM, 1, 1);
    assert_eq!(
        mean().check(&alpha, &alpha_destination, None),
        Err(unsupported("source", pixel_format::A8UNORM))
    );
}

#[test]
fn alpha_formats_follow_kernel_support() {
    let source = texture(pixel_format::A8UNORM, 8, 8);
    let destination = texture(pixel_format::A8UNORM, 8, 8);
    assert_eq!(
        median().check(&source, &destination, None),
        Err(unsupported("source", pixel_format::A8UNORM))
    );
    let mono = texture(pixel_format::R8UNORM, 8, 8);
    assert!(matches!(
        spatial().check(&source, &mono, None),
        Err(Error::InvalidArgument(_))
    ));
    spatial()
        .check(&source, &destination, None)
        .expect("alpha to alpha");
}

#[test]
fn kernels_do_not_run_in_place() {
    let target = texture(pixel_format::RGBA8UNORM, 8, 8);
    assert!(matches!(
        spatial().check(&target, &target, None),
        Err(Error::InvalidArgument(_))
    ));
    let rgba = image(4);
    assert!(matches!(
        spatial().check(&rgba, &rgba, None),
        Err(Error::InvalidArgument(_))
    ));
    let first = Operand {
        feature_channels: Some(4),
        ..target
    };
    let second = Operand {
        feature_channels: Some(4),
        ..target
    };
    assert!(matches!(
        spatial().check(&first, &second, None),
        Err(Error::InvalidArgument(_))
    ));
    let primary = texture(pixel_format::RGBA8UNORM, 8, 8);
    assert!(matches!(
        check_binary(&primary, &target, &target),
        Err(Error::InvalidArgument(_))
    ));
    assert!(matches!(
        check_binary(&primary, &target, &primary),
        Err(Error::InvalidArgument(_))
    ));
}

#[test]
fn texture_types_must_match() {
    let flat = texture(pixel_format::RGBA8UNORM, 8, 8);
    let layered = array_texture(pixel_format::RGBA8UNORM, 2);
    assert!(matches!(
        spatial().check(&flat, &layered, None),
        Err(Error::InvalidArgument(_))
    ));
    let three = array_texture(pixel_format::RGBA8UNORM, 3);
    assert_eq!(
        spatial().check(&three, &layered, None),
        Err(Error::DimensionMismatch {
            field: "destination array_length",
            expected: 3,
            actual: 2,
        })
    );
    let volume = || Operand {
        texture_type: texture_type::TYPE_3D,
        ..texture(pixel_format::RGBA8UNORM, 8, 8)
    };
    assert!(matches!(
        spatial().check(&volume(), &volume(), None),
        Err(Error::InvalidArgument(_))
    ));
    let other = texture(pixel_format::RGBA8UNORM, 8, 8);
    assert!(matches!(
        check_binary(&flat, &layered, &other),
        Err(Error::InvalidArgument(_))
    ));
    let other_layers = array_texture(pixel_format::RGBA8UNORM, 2);
    let layered_destination = array_texture(pixel_format::RGBA8UNORM, 2);
    spatial()
        .check(&other_layers, &layered_destination, None)
        .expect("matching 2D arrays");
}

#[test]
fn unary_kernels_take_at_most_four_feature_channels() {
    let wide = image(8);
    let wide_destination = image(8);
    assert!(matches!(
        spatial().check(&wide, &wide_destination, None),
        Err(Error::InvalidArgument(_))
    ));
    let secondary = image(8);
    check_binary(&wide, &secondary, &wide_destination).expect("binary kernels accept wide images");
    let narrow = image(4);
    assert!(matches!(
        check_binary(&narrow, &secondary, &wide_destination),
        Err(Error::InvalidArgument(_))
    ));
}

#[test]
fn kernel_sizes_are_checked() {
    assert!(!box_kernel_size_valid(2, 3));
    assert!(!box_kernel_size_valid(3, 4));
    assert!(!box_kernel_size_valid(0, 1));
    assert!(box_kernel_size_valid(3, 5));
    assert!(!convolution_kernel_valid(2, 3, 6));
    assert!(!convolution_kernel_valid(3, 2, 6));
    assert!(!convolution_kernel_valid(0, 0, 0));
    assert!(convolution_kernel_valid(3, 1, 3));
    for diameter in [0, 1, 2, 4, 129, 131] {
        assert!(!median_diameter_valid(diameter), "{diameter}");
    }
    for diameter in [3, 5, 127] {
        assert!(median_diameter_valid(diameter), "{diameter}");
    }
}

#[test]
fn histograms_check_their_source() {
    assert!(histogram_entries_valid(256));
    for format in [pixel_format::A8UNORM, pixel_format::DEPTH32FLOAT, 9_999] {
        assert_eq!(
            check_histogram_format(format),
            Err(unsupported("source", format))
        );
    }
    check_histogram_format(pixel_format::RGBA8UNORM).expect("supported");
    let layered = array_texture(pixel_format::RGBA8UNORM, 2);
    assert!(matches!(
        check_histogram_source(&layered),
        Err(Error::InvalidArgument(_))
    ));
    let wide = image(8);
    assert!(matches!(
        check_histogram_source(&wide),
        Err(Error::InvalidArgument(_))
    ));
    let alpha = texture(pixel_format::A8UNORM, 8, 8);
    assert_eq!(
        check_histogram_source(&alpha),
        Err(unsupported("source", pixel_format::A8UNORM))
    );
    let integer = texture(pixel_format::R32UINT, 8, 8);
    check_histogram_source(&integer).expect("histograms accept integer sources");
    assert_eq!(check_histogram_offset(0), Ok(()));
    assert_eq!(check_histogram_extent(0, 3 * 256 * 4, 4096), Ok(()));
}
