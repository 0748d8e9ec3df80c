use apple_mps::matrix::{ensure_buffer_holds, MatrixOperand, MultiplicationGeometry};
use apple_mps::ndarray::{
    check_rank, check_transpose, multiplication_source_count_valid, reshape_is_valid,
    validate_dimension_sizes, validate_multiplication,
};
use apple_mps::{data_type, Error, MatrixDescriptor, NDArrayDescriptor, VectorDescriptor};

fn matrix(rows: usize, columns: usize, data: u32) -> MatrixOperand {
    MatrixOperand { rows, columns, data_type: data }
}

fn backed(descriptor: MatrixDescriptor, buffer_length: usize) -> Result<(), Error> {
    ensure_buffer_holds(buffer_length, descriptor.required_buffer_length()?)
}

#[test]
fn matrices_larger_than_their_buffer_are_refused() {
    let descriptor = MatrixDescriptor::contiguous(1024, 1024, data_type::FLOAT32).expect("desc");
    assert_eq!(descriptor.required_buffer_length(), Ok(4_194_304));
    assert_eq!(
        backed(descriptor, 4),
        Err(Error::BufferTooSmall {
            required: 4_194_304,
            length: 4,
        })
    );
    let batched = MatrixDescriptor::with_strides(2, 3, 2, 16, 48, data_type::FLOAT32);
    assert_eq!(batched.required_buffer_length(), Ok(76));
    assert!(backed(batched, 75).is_err());
    backed(batched, 76).expect("exact fit");
    assert_eq!(batched.matrices, 2);
    assert_eq!(batched.row_bytes, 16);
    assert_eq!(batched.matrix_bytes, 48);
}

#[test]
fn matrix_strides_follow_the_mps_rules() {
    let check = |descriptor: MatrixDescriptor| backed(descriptor, 4096).err();
    assert_eq!(
        check(MatrixDescriptor::with_strides(2, 2, 1, 9, 18, data_type::FLOAT32)),
        Some(Error::Misaligned {
            field: "row_bytes",
            value: 9,
            alignment: 4,
        })
    );
    assert_eq!(
        check(MatrixDescriptor::with_strides(2, 2, 1, 4, 8, data_type::FLOAT32)),
        Some(Error::DimensionMismatch {
            field: "row_bytes",
            expected: 8,
            actual: 4,
        })
    );
    assert_eq!(
        check(MatrixDescriptor::with_strides(2, 2, 2, 8, 12, data_type::FLOAT32)),
        Some(Error::DimensionMismatch {
            field: "matrix_bytes",
            expected: 16,
            actual: 12,
        })
    );
    assert_eq!(
        check(MatrixDescriptor::with_strides(2, 2, 2, 8, 20, data_type::FLOAT32)),
        Some(Error::Misaligned {
            field: "matrix_bytes",
            value: 20,
            alignment: 8,
        })
    );
    assert_eq!(
        check(MatrixDescriptor::with_strides(2, 2, 1, 8, 16, 0x1234)),
        Some(Error::UnsupportedDataType(0x1234))
    );
    assert_eq!(
        check(MatrixDescriptor::with_strides(usize::MAX, 0, 1, 0, 0, data_type::FLOAT32)),
        Some(Error::Overflow)
    );
    assert_eq!(
        check(MatrixDescriptor::with_strides(usize::MAX / 2, 1, 1, 8, 0, data_type::FLOAT32)),
        Some(Error::Overflow)
    );
    let bf16 = MatrixDescriptor::contiguous(2, 2, data_type::BFLOAT16).expect("bf16 desc");
    assert_eq!(bf16.row_bytes, 4);
    assert!(backed(bf16, 4096).is_ok());
}

#[test]
fn vectors_are_checked_against_their_buffer() {
    let backed = |descriptor: VectorDescriptor, length: usize| {
        descriptor
            .required_buffer_length()
            .and_then(|required| ensure_buffer_holds(length, required))
    };
    let batched = VectorDescriptor::with_stride(3, 2, 16, data_type::FLOAT32);
    assert_eq!(batched.required_buffer_length(), Ok(28));
    assert_eq!(
        backed(batched, 27),
        Err(Error::BufferTooSmall {
            required: 28,
            length: 27,
        })
    );
    backed(batched, 28).expect("exact fit");
    assert_eq!(batched.vectors, 2);
    assert_eq!(
        backed(VectorDescriptor::with_stride(2, 2, 9, data_type::FLOAT32), 4096),
        Err(Error::Misaligned {
            field: "vector_bytes",
            value: 9,
            alignment: 4,
        })
    );
    assert_eq!(
        backed(VectorDescriptor::with_stride(4, 2, 8, data_type::FLOAT32), 4096),
        Err(Error::DimensionMismatch {
            field: "vector_bytes",
            expected: 16,
            actual: 8,
        })
    );
    let single = VectorDescriptor::contiguous(1024, data_type::FLOAT32).expect("desc");
    assert_eq!(
        backed(single, 4),
        Err(Error::BufferTooSmall {
            required: 4096,
            length: 4,
        })
    );
}

#[test]
fn buffer_backed_ndarrays_are_checked_against_their_buffer() {
    let huge = NDArrayDescriptor::with_dimension_sizes(data_type::FLOAT32, &[1024, 1024])
        .expect("descriptor");
    assert_eq!(huge.required_buffer_length(), Ok(4_194_304));
    assert_eq!(
        huge.check_buffer(0, 4),
        Err(Error::BufferTooSmall {
            required: 4_194_304,
            length: 4,
        })
    );
    let padded =
        NDArrayDescriptor::with_dimension_sizes(data_type::FLOAT32, &[3, 5]).expect("descriptor");
    assert_eq!(padded.required_buffer_length(), Ok(80));
    assert_eq!(
        padded.check_buffer(2, 96),
        Err(Error::Misaligned {
            field: "offset",
            value: 2,
            alignment: 4,
        })
    );
    assert_eq!(
        padded.check_buffer(20, 96),
        Err(Error::BufferTooSmall {
            required: 100,
            length: 96,
        })
    );
    padded.check_buffer(16, 96).expect("fits at offset 16");
    assert_eq!(padded.length_of_dimension(0), 3);
    assert_eq!(padded.length_of_dimension(1), 5);
    assert_eq!(padded.length_of_dimension(7), 1);
    let packed =
        NDArrayDescriptor::with_dimension_sizes(data_type::INT4, &[8]).expect("int4 descriptor");
    assert_eq!(
        packed.check_buffer(0, 96),
        Err(Error::UnsupportedDataType(data_type::INT4))
    );
}

#[test]
fn ndarray_descriptors_reject_shapes_mps_aborts_on() {
    assert!(NDArrayDescriptor::with_dimension_sizes(data_type::FLOAT32, &[]).is_none());
    assert!(NDArrayDescriptor::with_dimension_sizes(data_type::FLOAT32, &[1; 17]).is_none());
    assert!(
        NDArrayDescriptor::with_dimension_sizes(data_type::FLOAT32, &[1 << 16, 1 << 15]).is_none()
    );
    assert!(NDArrayDescriptor::with_dimension_sizes(data_type::FLOAT32, &[usize::MAX]).is_none());
    let descriptor =
        NDArrayDescriptor::with_dimension_sizes(data_type::FLOAT32, &[2, 3]).expect("descriptor");
    assert!(matches!(check_rank(17), Err(Error::InvalidArgument(_))));
    assert!(matches!(
        check_transpose(descriptor.number_of_dimensions(), 0, 5),
        Err(Error::InvalidArgument(_))
    ));
    assert!(matches!(
        validate_dimension_sizes(&[1; 17]),
        Err(Error::InvalidArgument(_))
    ));
    assert_eq!(descriptor.number_of_dimensions(), 2);
    check_transpose(descriptor.number_of_dimensions(), 0, 1).expect("transpose");
    validate_dimension_sizes(&[6]).expect("reshape");
    check_rank(3).expect("rank 3");
}

#[test]
fn identity_reshapes_must_preserve_the_volume() {
    let source = [2, 2];
    assert!(!reshape_is_valid(&source, &[5], None));
    assert!(!reshape_is_valid(&source, &[], None));
    assert!(!reshape_is_valid(&source, &[4], Some(&[7])));
    assert!(!reshape_is_valid(&source, &[4], Some(&[4, 1])));
    let six = [6];
    assert!(!reshape_is_valid(&six, &[3, 2], Some(&[3, 2])));
    assert!(reshape_is_valid(&six, &[3, 2], Some(&[2, 3])));
}

#[test]
fn ndarray_multiplication_checks_sources_and_shapes() {
    assert!(!multiplication_source_count_valid(0));
    assert!(!multiplication_source_count_valid(1));
    assert!(!multiplication_source_count_valid(4));
    assert!(multiplication_source_count_valid(2));
    let a = vec![3, 2];
    let b = vec![4, 3];
    assert!(validate_multiplication(2, &[a.clone()], None).is_err());
    assert!(validate_multiplication(2, &[a.clone(), b.clone(), b.clone()], None).is_err());
    assert_eq!(
        validate_multiplication(2, &[a.clone(), vec![4, 5]], Some(&vec![4, 2])),
        Err(Error::DimensionMismatch {
            field: "interior dimension",
            expected: 3,
            actual: 5,
        })
    );
    assert_eq!(
        validate_multiplication(2, &[vec![3, 2, 3], vec![4, 3, 2]], Some(&vec![4, 2, 3])),
        Err(Error::DimensionMismatch {
            field: "batch dimension",
            expected: 3,
            actual: 2,
        })
    );
    assert_eq!(
        validate_multiplication(2, &[a.clone(), b.clone()], Some(&vec![1, 1])),
        Err(Error::DimensionMismatch {
            field: "destination dimension",
            expected: 4,
            actual: 1,
        })
    );
    assert_eq!(
        validate_multiplication(3, &[a.clone(), b.clone(), vec![3, 2]], Some(&vec![4, 2])),
        Err(Error::DimensionMismatch {
            field: "addend dimension",
            expected: 4,
            actual: 3,
        })
    );
    validate_multiplication(2, &[vec![3, 2, 1], vec![4, 3, 5]], None).expect("broadcast batch");
}

#[test]
fn matrix_multiplication_checks_m_n_k_and_data_types() {
    let square = MultiplicationGeometry {
        transpose_left: false,
        transpose_right: false,
        result_rows: 4,
        result_columns: 4,
        interior_columns: 4,
    };
    assert!(square.fits_native());
    let two = matrix(2, 2, data_type::FLOAT32);
    let four = matrix(4, 4, data_type::FLOAT32);
    assert_eq!(
        square.check_operands(two, four, four),
        Err(Error::DimensionMismatch {
            field: "left rows",
            expected: 4,
            actual: 2,
        })
    );
    assert_eq!(
        square.check_operands(four, two, four),
        Err(Error::DimensionMismatch {
            field: "right rows",
            expected: 4,
            actual: 2,
        })
    );
    assert_eq!(
        square.check_operands(four, four, two),
        Err(Error::DimensionMismatch {
            field: "result rows",
            expected: 4,
            actual: 2,
        })
    );
    let wide = matrix(4, 2, data_type::FLOAT32);
    assert_eq!(
        square.check_operands(wide, four, four),
        Err(Error::DimensionMismatch {
            field: "left columns",
            expected: 4,
            actual: 2,
        })
    );
    let int = matrix(4, 4, data_type::INT32);
    assert!(matches!(
        square.check_operands(int, int, int),
        Err(Error::InvalidArgument(_))
    ));
    let half = matrix(4, 4, data_type::FLOAT16);
    assert!(matches!(
        square.check_operands(half, four, four),
        Err(Error::InvalidArgument(_))
    ));
    square
        .check_operands(four, half, four)
        .expect("f32 x f16 -> f32 is supported");

    let transposed = MultiplicationGeometry {
        transpose_left: true,
        transpose_right: false,
        result_rows: 2,
        result_columns: 4,
        interior_columns: 3,
    };
    let left = matrix(3, 2, data_type::FLOAT32);
    let right = matrix(3, 4, data_type::FLOAT32);
    let result = matrix(2, 4, data_type::FLOAT32);
    assert_eq!(
        transposed.check_operands(result, right, result),
        Err(Error::DimensionMismatch {
            field: "left rows",
            expected: 3,
            actual: 2,
        })
    );
    transposed
        .check_operands(left, right, result)
        .expect("transposed left is stored as K x M");
}

#[test]
fn padded_layout_lengths_follow_the_closed_form() {
    let descriptor = NDArrayDescriptor::with_dimension_sizes(data_type::FLOAT32, &[3, 5, 2]).expect("descriptor");
    assert_eq!(descriptor.required_buffer_length(), Ok(16 * 5 * 2));
    let half = NDArrayDescriptor::with_dimension_sizes(data_type::FLOAT16, &[9, 3]).expect("descriptor");
    assert_eq!(half.required_buffer_length(), Ok(32 * 3));
    // A zero length ends the count at 0, but the running product overflows first.
    let empty = NDArrayDescriptor::with_dimension_sizes(data_type::FLOAT32, &[1, 1 << 30, 1 << 30, 0])
        .expect("an empty array");
    assert_eq!(empty.required_buffer_length(), Err(Error::Overflow));
}

#[test]
fn reshapes_whose_count_overflows_are_refused() {
    assert!(!reshape_is_valid(&[0], &[1 << 40, 1 << 40, 0], None));
    assert!(reshape_is_valid(&[0], &[4, 0], None));
    assert!(reshape_is_valid(&[2, 3], &[6], Some(&[6])));
    assert!(!reshape_is_valid(&[2, 3], &[3, 2], Some(&[3, 2])));
    assert!(reshape_is_valid(&[2, 3], &[3, 2], Some(&[2, 3])));
}

#[test]
fn products_meeting_every_rule_are_accepted() {
    let left = vec![3, 2, 4];
    let right = vec![5, 3, 1];
    let addend = vec![1, 2, 4];
    let destination = vec![5, 2, 4];
    assert_eq!(validate_multiplication(3, &[left.clone(), right.clone(), addend], Some(&destination)), Ok(()));
    assert_eq!(
        validate_multiplication(2, &[left, right], Some(&vec![5, 2, 3])),
        Err(Error::DimensionMismatch { field: "destination dimension", expected: 4, actual: 3 })
    );
}
