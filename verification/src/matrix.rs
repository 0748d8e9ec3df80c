use crate::error::{Error, Result};
use vstd::prelude::*;

pub mod data_type;
mod raw_values;

pub use self::raw_values::{MatrixDecompositionStatus, MatrixRandomDistribution};

verus! {

/// The byte width of an `MPSDataType`, where it has one that buffers can be sized by.
pub open spec fn element_size(data_type: u32) -> Option<usize> {
    if data_type == data_type::FLOAT16 || data_type == data_type::INT16
        || data_type == data_type::UINT16 || data_type == data_type::BFLOAT16 {
        Some(2)
    } else if data_type == data_type::FLOAT32 || data_type == data_type::INT32
        || data_type == data_type::UINT32 || data_type == data_type::COMPLEX_FLOAT16
        || data_type == data_type::COMPLEX_BFLOAT16 {
        Some(4)
    } else if data_type == data_type::INT8 || data_type == data_type::UINT8
        || data_type == data_type::UNORM8 || data_type == data_type::BOOL {
        Some(1)
    } else if data_type == data_type::INT64 || data_type == data_type::UINT64
        || data_type == data_type::COMPLEX_FLOAT32 {
        Some(8)
    } else {
        None
    }
}

/// Return the byte width of a supported `MPSDataType`.
pub fn data_type_size(data_type: u32) -> (r: Option<usize>)
    ensures
        r == element_size(data_type),
{
    if data_type == data_type::FLOAT16 || data_type == data_type::INT16
        || data_type == data_type::UINT16 || data_type == data_type::BFLOAT16 {
        Some(2)
    } else if data_type == data_type::FLOAT32 || data_type == data_type::INT32
        || data_type == data_type::UINT32 || data_type == data_type::COMPLEX_FLOAT16
        || data_type == data_type::COMPLEX_BFLOAT16 {
        Some(4)
    } else if data_type == data_type::INT8 || data_type == data_type::UINT8
        || data_type == data_type::UNORM8 || data_type == data_type::BOOL {
        Some(1)
    } else if data_type == data_type::INT64 || data_type == data_type::UINT64
        || data_type == data_type::COMPLEX_FLOAT32 {
        Some(8)
    } else {
        None
    }
}


/// Whether a value fits the signed native integer that MPS takes sizes as.
pub open spec fn fits_native(value: int) -> bool {
    value <= isize::MAX
}

/// Fails with `Overflow` unless every value fits an `NSInteger`.
pub fn fit_native_int(values: &[usize]) -> (r: Result<()>)
    ensures
        r is Ok <==> (forall|i: int| 0 <= i < values@.len() ==> fits_native(#[trigger] values@[i] as int)),
        r is Err ==> r == Err::<(), Error>(Error::Overflow),
{
    let mut i: usize = 0;
    while i < values.len()
        invariant
            i <= values@.len(),
            forall|j: int| 0 <= j < i ==> fits_native(#[trigger] values@[j] as int),
        decreases values@.len() - i,
    {
        if values[i] > isize::MAX as usize {
            return Err(Error::Overflow);
        }
        i = i + 1;
    }
    Ok(())
}

/// Fails with `BufferTooSmall` when a buffer of `length` bytes cannot hold `required` bytes.
pub fn ensure_buffer_holds(length: usize, required: usize) -> (r: Result<()>)
    ensures
        r == (if required > length {
            Err(Error::BufferTooSmall { required, length })
        } else {
            Ok(())
        }),
{
    if required > length {
        Err(Error::BufferTooSmall { required, length })
    } else {
        Ok(())
    }
}

/// Plain-Rust configuration for `MPSMatrixDescriptor`.
#[derive(Debug, Clone, Copy)]
pub struct MatrixDescriptor {
    /// Corresponds to the `rows` field on `MPSMatrixDescriptor`.
    pub rows: usize,
    /// Corresponds to the `columns` field on `MPSMatrixDescriptor`.
    pub columns: usize,
    /// Corresponds to the `matrices` field on `MPSMatrixDescriptor`.
    pub matrices: usize,
    /// Corresponds to the `row_bytes` field on `MPSMatrixDescriptor`.
    pub row_bytes: usize,
    /// Corresponds to the `matrix_bytes` field on `MPSMatrixDescriptor`.
    pub matrix_bytes: usize,
    /// Corresponds to the `data_type` field on `MPSMatrixDescriptor`.
    pub data_type: u32,
}

/// Bytes from the first element of a strided matrix batch to one past its last element.
pub open spec fn matrix_extent(
    rows: int,
    columns: int,
    matrices: int,
    row_bytes: int,
    matrix_bytes: int,
    element: int,
) -> int {
    if rows == 0 || columns == 0 || matrices == 0 {
        0
    } else {
        (matrices - 1) * matrix_bytes + (rows - 1) * row_bytes + columns * element
    }
}

impl MatrixDescriptor {
    /// What `required_buffer_length` returns: the first stride rule that the
    /// descriptor breaks, or the number of bytes its storage spans.
    pub open spec fn required_length(self) -> Result<usize> {
        let rows = self.rows as int;
        let columns = self.columns as int;
        let matrices = self.matrices as int;
        let row_bytes = self.row_bytes as int;
        let matrix_bytes = self.matrix_bytes as int;
        match element_size(self.data_type) {
            None => Err(Error::UnsupportedDataType(self.data_type)),
            Some(element) => {
                let row = columns * element;
                if !fits_native(rows) || !fits_native(columns) || !fits_native(matrices)
                    || !fits_native(row_bytes) || !fits_native(matrix_bytes) {
                    Err(Error::Overflow)
                } else if row_bytes % (element as int) != 0 {
                    Err(Error::Misaligned { field: "row_bytes", value: self.row_bytes, alignment: element })
                } else if row > usize::MAX {
                    Err(Error::Overflow)
                } else if row_bytes < row {
                    Err(Error::DimensionMismatch { field: "row_bytes", expected: row as usize, actual: self.row_bytes })
                } else if matrices > 1 && rows * row_bytes > usize::MAX {
                    Err(Error::Overflow)
                } else if matrices > 1 && matrix_bytes < rows * row_bytes {
                    Err(Error::DimensionMismatch {
                        field: "matrix_bytes",
                        expected: (rows * row_bytes) as usize,
                        actual: self.matrix_bytes,
                    })
                } else if matrices > 1 && row_bytes > 0 && matrix_bytes % row_bytes != 0 {
                    Err(Error::Misaligned { field: "matrix_bytes", value: self.matrix_bytes, alignment: self.row_bytes })
                } else {
                    let extent = matrix_extent(rows, columns, matrices, row_bytes, matrix_bytes, element as int);
                    if !fits_native(extent) {
                        Err(Error::Overflow)
                    } else {
                        Ok(extent as usize)
                    }
                }
            },
        }
    }

    /// Construct a matrix descriptor with explicit row and matrix strides.
    pub fn with_strides(
        rows: usize,
        columns: usize,
        matrices: usize,
        row_bytes: usize,
        matrix_bytes: usize,
        data_type: u32,
    ) -> (r: Self)
        ensures
            r == (MatrixDescriptor { rows, columns, matrices, row_bytes, matrix_bytes, data_type }),
    {
        Self { rows, columns, matrices, row_bytes, matrix_bytes, data_type }
    }

    /// Construct a single contiguous matrix descriptor for a supported data type.
    pub fn contiguous(rows: usize, columns: usize, data_type: u32) -> (r: Option<Self>)
        ensures
            r is Some <==> ({
                &&& element_size(data_type) is Some
                &&& columns * element_size(data_type).unwrap() <= usize::MAX
                &&& rows * (columns * element_size(data_type).unwrap()) <= usize::MAX
            }),
            r matches Some(d) ==> d == (MatrixDescriptor {
                rows,
                columns,
                matrices: 1,
                row_bytes: (columns * element_size(data_type).unwrap()) as usize,
                matrix_bytes: (rows * (columns * element_size(data_type).unwrap())) as usize,
                data_type,
            }),
    {
        let element_size = match data_type_size(data_type) {
            Some(size) => size,
            None => return None,
        };
        let row_bytes = match columns.checked_mul(element_size) {
            Some(bytes) => bytes,
            None => return None,
        };
        let matrix_bytes = match rows.checked_mul(row_bytes) {
            Some(bytes) => bytes,
            None => return None,
        };
        Some(Self::with_strides(rows, columns, 1, row_bytes, matrix_bytes, data_type))
    }

    /// The number of bytes that a buffer must hold to back this descriptor,
    /// after checking the strides against the MPS rules.
    pub fn required_buffer_length(&self) -> (r: Result<usize>)
        ensures
            r == self.required_length(),
    {
        let element_size = match data_type_size(self.data_type) {
            Some(size) => size,
            None => return Err(Error::UnsupportedDataType(self.data_type)),
        };
        let fields = [self.rows, self.columns, self.matrices, self.row_bytes, self.matrix_bytes];
        let fit = fit_native_int(&fields);
        proof {
            assert(fields@[0] == self.rows && fields@[1] == self.columns && fields@[2] == self.matrices
                && fields@[3] == self.row_bytes && fields@[4] == self.matrix_bytes);
        }
        if fit.is_err() {
            return Err(Error::Overflow);
        }
        if self.row_bytes % element_size != 0 {
            return Err(Error::Misaligned { field: "row_bytes", value: self.row_bytes, alignment: element_size });
        }
        let row = match self.columns.checked_mul(element_size) {
            Some(row) => row,
            None => return Err(Error::Overflow),
        };
        if self.row_bytes < row {
            return Err(Error::DimensionMismatch { field: "row_bytes", expected: row, actual: self.row_bytes });
        }
        if self.matrices > 1 {
            let matrix = match self.rows.checked_mul(self.row_bytes) {
                Some(matrix) => matrix,
                None => return Err(Error::Overflow),
            };
            if self.matrix_bytes < matrix {
                return Err(Error::DimensionMismatch {
                    field: "matrix_bytes",
                    expected: matrix,
                    actual: self.matrix_bytes,
                });
            }
            if self.row_bytes > 0 && self.matrix_bytes % self.row_bytes != 0 {
                return Err(Error::Misaligned {
                    field: "matrix_bytes",
                    value: self.matrix_bytes,
                    alignment: self.row_bytes,
                });
            }
        }
        if self.rows == 0 || self.columns == 0 || self.matrices == 0 {
            return Ok(0);
        }
        let ghost extent = matrix_extent(
            self.rows as int, self.columns as int, self.matrices as int,
            self.row_bytes as int, self.matrix_bytes as int, element_size as int,
        );
        let start = match (self.matrices - 1).checked_mul(self.matrix_bytes) {
            Some(start) => start,
            None => {
                proof { lemma_extent_parts(self.rows as int, self.columns as int, self.matrices as int,
                    self.row_bytes as int, self.matrix_bytes as int, element_size as int); }
                return Err(Error::Overflow);
            },
        };
        let rows_span = match (self.rows - 1).checked_mul(self.row_bytes) {
            Some(span) => span,
            None => {
                proof { lemma_extent_parts(self.rows as int, self.columns as int, self.matrices as int,
                    self.row_bytes as int, self.matrix_bytes as int, element_size as int); }
                return Err(Error::Overflow);
            },
        };
        let length = match start.checked_add(rows_span) {
            Some(sum) => match sum.checked_add(row) {
                Some(length) => length,
                None => return Err(Error::Overflow),
            },
            None => {
                proof { lemma_extent_parts(self.rows as int, self.columns as int, self.matrices as int,
                    self.row_bytes as int, self.matrix_bytes as int, element_size as int); }
                return Err(Error::Overflow);
            },
        };
        if length > isize::MAX as usize {
            return Err(Error::Overflow);
        }
        Ok(length)
    }
}

proof fn lemma_extent_parts(rows: int, columns: int, matrices: int, row_bytes: int, matrix_bytes: int, element: int)
    requires
        rows >= 1, columns >= 1, matrices >= 1, row_bytes >= 0, matrix_bytes >= 0, element >= 0,
    ensures
        (matrices - 1) * matrix_bytes >= 0,
        (rows - 1) * row_bytes >= 0,
        columns * element >= 0,
        matrix_extent(rows, columns, matrices, row_bytes, matrix_bytes, element)
            >= (matrices - 1) * matrix_bytes + (rows - 1) * row_bytes,
{
    vstd::arithmetic::mul::lemma_mul_nonnegative(matrices - 1, matrix_bytes);
    vstd::arithmetic::mul::lemma_mul_nonnegative(rows - 1, row_bytes);
    vstd::arithmetic::mul::lemma_mul_nonnegative(columns, element);
}

/// Plain-Rust configuration for `MPSVectorDescriptor`.
#[derive(Debug, Clone, Copy)]
pub struct VectorDescriptor {
    /// Corresponds to the `length` field on `MPSVectorDescriptor`.
    pub length: usize,
    /// Corresponds to the `vectors` field on `MPSVectorDescriptor`.
    pub vectors: usize,
    /// Corresponds to the `vector_bytes` field on `MPSVectorDescriptor`.
    pub vector_bytes: usize,
    /// Corresponds to the `data_type` field on `MPSVectorDescriptor`.
    pub data_type: u32,
}

/// Bytes from the first element of a strided vector batch to one past its last element.
pub open spec fn vector_extent(length: int, vectors: int, vector_bytes: int, element: int) -> int {
    if length == 0 || vectors == 0 {
        0
    } else {
        (vectors - 1) * vector_bytes + length * element
    }
}

impl VectorDescriptor {
    /// What `required_buffer_length` returns: the first stride rule that the
    /// descriptor breaks, or the number of bytes its storage spans.
    pub open spec fn required_length(self) -> Result<usize> {
        let length = self.length as int;
        let vectors = self.vectors as int;
        let vector_bytes = self.vector_bytes as int;
        match element_size(self.data_type) {
            None => Err(Error::UnsupportedDataType(self.data_type)),
            Some(element) => {
                let vector = length * element;
                if !fits_native(length) || !fits_native(vectors) || !fits_native(vector_bytes) {
                    Err(Error::Overflow)
                } else if vector > usize::MAX {
                    Err(Error::Overflow)
                } else if vectors > 1 && vector_bytes % (element as int) != 0 {
                    Err(Error::Misaligned { field: "vector_bytes", value: self.vector_bytes, alignment: element })
                } else if vectors > 1 && vector_bytes < vector {
                    Err(Error::DimensionMismatch {
                        field: "vector_bytes",
                        expected: vector as usize,
                        actual: self.vector_bytes,
                    })
                } else {
                    let extent = vector_extent(length, vectors, vector_bytes, element as int);
                    if !fits_native(extent) {
                        Err(Error::Overflow)
                    } else {
                        Ok(extent as usize)
                    }
                }
            },
        }
    }

    /// Construct a vector descriptor with an explicit stride.
    pub fn with_stride(length: usize, vectors: usize, vector_bytes: usize, data_type: u32) -> (r: Self)
        ensures
            r == (VectorDescriptor { length, vectors, vector_bytes, data_type }),
    {
        Self { length, vectors, vector_bytes, data_type }
    }

    /// Construct a contiguous vector descriptor for a supported data type.
    pub fn contiguous(length: usize, data_type: u32) -> (r: Option<Self>)
        ensures
            r is Some <==> (element_size(data_type) is Some
                && length * element_size(data_type).unwrap() <= usize::MAX),
            r matches Some(d) ==> d == (VectorDescriptor {
                length,
                vectors: 1,
                vector_bytes: (length * element_size(data_type).unwrap()) as usize,
                data_type,
            }),
    {
        let element_size = match data_type_size(data_type) {
            Some(size) => size,
            None => return None,
        };
        let vector_bytes = match length.checked_mul(element_size) {
            Some(bytes) => bytes,
            None => return None,
        };
        Some(Self::with_stride(length, 1, vector_bytes, data_type))
    }

    /// The number of bytes that a buffer must hold to back this descriptor,
    /// after checking the stride against the MPS rules.
    pub fn required_buffer_length(&self) -> (r: Result<usize>)
        ensures
            r == self.required_length(),
    {
        let element_size = match data_type_size(self.data_type) {
            Some(size) => size,
            None => return Err(Error::UnsupportedDataType(self.data_type)),
        };
        let fields = [self.length, self.vectors, self.vector_bytes];
        let fit = fit_native_int(&fields);
        proof {
            assert(fields@[0] == self.length && fields@[1] == self.vectors && fields@[2] == self.vector_bytes);
        }
        if fit.is_err() {
            return Err(Error::Overflow);
        }
        let vector = match self.length.checked_mul(element_size) {
            Some(vector) => vector,
            None => return Err(Error::Overflow),
        };
        if self.vectors > 1 {
            if self.vector_bytes % element_size != 0 {
                return Err(Error::Misaligned {
                    field: "vector_bytes",
                    value: self.vector_bytes,
                    alignment: element_size,
                });
            }
            if self.vector_bytes < vector {
                return Err(Error::DimensionMismatch {
                    field: "vector_bytes",
                    expected: vector,
                    actual: self.vector_bytes,
                });
            }
        }
        if self.length == 0 || self.vectors == 0 {
            return Ok(0);
        }
        proof {
            vstd::arithmetic::mul::lemma_mul_nonnegative(self.vectors - 1, self.vector_bytes as int);
        }
        let start = match (self.vectors - 1).checked_mul(self.vector_bytes) {
            Some(start) => start,
            None => return Err(Error::Overflow),
        };
        let length = match start.checked_add(vector) {
            Some(length) => length,
            None => return Err(Error::Overflow),
        };
        if length > isize::MAX as usize {
            return Err(Error::Overflow);
        }
        Ok(length)
    }
}

/// Every element of a matrix batch lies inside the length that
/// `required_buffer_length` accepts: the element at (`matrix`, `row`, `column`)
/// starts at `matrix * matrix_bytes + row * row_bytes + column * element_size`
/// and ends no later than the required length.
pub proof fn lemma_matrix_elements_within_required_length(
    descriptor: MatrixDescriptor,
    matrix: int,
    row: int,
    column: int,
)
    requires
        descriptor.required_length() is Ok,
        0 <= matrix < descriptor.matrices,
        0 <= row < descriptor.rows,
        0 <= column < descriptor.columns,
    ensures
        ({
            let element = element_size(descriptor.data_type).unwrap() as int;
            &&& descriptor.row_bytes >= descriptor.columns * element
            &&& descriptor.matrices > 1 ==> descriptor.matrix_bytes >= descriptor.rows * descriptor.row_bytes
            &&& matrix * descriptor.matrix_bytes + row * descriptor.row_bytes + (column + 1) * element
                <= descriptor.required_length().unwrap() as int
        }),
{
    let element = element_size(descriptor.data_type).unwrap() as int;
    vstd::arithmetic::mul::lemma_mul_inequality(matrix, descriptor.matrices - 1, descriptor.matrix_bytes as int);
    vstd::arithmetic::mul::lemma_mul_inequality(row, descriptor.rows - 1, descriptor.row_bytes as int);
    vstd::arithmetic::mul::lemma_mul_inequality(column + 1, descriptor.columns as int, element);
}

/// Every element of a vector batch lies inside the length that
/// `required_buffer_length` accepts: the element at (`vector`, `index`)
/// starts at `vector * vector_bytes + index * element_size`.
pub proof fn lemma_vector_elements_within_required_length(
    descriptor: VectorDescriptor,
    vector: int,
    index: int,
)
    requires
        descriptor.required_length() is Ok,
        0 <= vector < descriptor.vectors,
        0 <= index < descriptor.length,
    ensures
        ({
            let element = element_size(descriptor.data_type).unwrap() as int;
            &&& descriptor.vectors > 1 ==> descriptor.vector_bytes >= descriptor.length * element
            &&& vector * descriptor.vector_bytes + (index + 1) * element
                <= descriptor.required_length().unwrap() as int
        }),
{
    let element = element_size(descriptor.data_type).unwrap() as int;
    vstd::arithmetic::mul::lemma_mul_inequality(vector, descriptor.vectors - 1, descriptor.vector_bytes as int);
    vstd::arithmetic::mul::lemma_mul_inequality(index + 1, descriptor.length as int, element);
}

/// A contiguous matrix descriptor passes the stride checks and needs exactly
/// its `matrix_bytes`, whenever its sizes fit an `NSInteger`.
pub proof fn lemma_contiguous_matrix_needs_matrix_bytes(rows: usize, columns: usize, data_type: u32)
    requires
        element_size(data_type) is Some,
        columns * element_size(data_type).unwrap() <= isize::MAX,
        rows * (columns * element_size(data_type).unwrap()) <= isize::MAX,
        fits_native(rows as int),
    ensures
        ({
            let d = MatrixDescriptor {
                rows,
                columns,
                matrices: 1,
                row_bytes: (columns * element_size(data_type).unwrap()) as usize,
                matrix_bytes: (rows * (columns * element_size(data_type).unwrap())) as usize,
                data_type,
            };
            d.required_length() == Ok::<usize, Error>(d.matrix_bytes)
        }),
{
    let element = element_size(data_type).unwrap() as int;
    let row = columns * element;
    vstd::arithmetic::mul::lemma_mul_nonnegative(columns as int, element);
    vstd::arithmetic::mul::lemma_mul_nonnegative(rows as int, row);
    assert(columns <= row) by {
        vstd::arithmetic::mul::lemma_mul_inequality(1, element, columns as int);
    }
    assert(row % element == 0) by {
        vstd::arithmetic::div_mod::lemma_mod_multiples_basic(columns as int, element);
    }
    if rows > 0 && columns > 0 {
        vstd::arithmetic::mul::lemma_mul_is_distributive_sub_other_way(row, rows as int, 1);
    } else if rows == 0 {
        assert(rows * row == 0);
    } else {
        assert(row == 0);
        vstd::arithmetic::mul::lemma_mul_basics(rows as int);
    }
}

/// A contiguous vector descriptor passes the stride checks and needs exactly
/// its `vector_bytes`, whenever its sizes fit an `NSInteger`.
pub proof fn lemma_contiguous_vector_needs_vector_bytes(length: usize, data_type: u32)
    requires
        element_size(data_type) is Some,
        length * element_size(data_type).unwrap() <= isize::MAX,
        fits_native(length as int),
    ensures
        ({
            let d = VectorDescriptor {
                length,
                vectors: 1,
                vector_bytes: (length * element_size(data_type).unwrap()) as usize,
                data_type,
            };
            d.required_length() == Ok::<usize, Error>(d.vector_bytes)
        }),
{
}

/// Rows, columns and data type of a matrix operand, as MPS reports them.
#[derive(Debug, Clone, Copy)]
pub struct MatrixOperand {
    pub rows: usize,
    pub columns: usize,
    pub data_type: u32,
}

/// The outcome of checking that a matrix has at least `required` rows and columns.
pub open spec fn covers_spec(
    matrix: MatrixOperand,
    fields: (&'static str, &'static str),
    required: (usize, usize),
) -> Result<()> {
    if matrix.rows < required.0 {
        Err(Error::DimensionMismatch { field: fields.0, expected: required.0, actual: matrix.rows })
    } else if matrix.columns < required.1 {
        Err(Error::DimensionMismatch { field: fields.1, expected: required.1, actual: matrix.columns })
    } else {
        Ok(())
    }
}

/// Fails with `DimensionMismatch` on the first of rows and columns that is
/// smaller than `required`.
pub fn ensure_covers(
    matrix: MatrixOperand,
    fields: (&'static str, &'static str),
    required: (usize, usize),
) -> (r: Result<()>)
    ensures
        r == covers_spec(matrix, fields, required),
{
    let (rows, columns) = required;
    if matrix.rows < rows {
        return Err(Error::DimensionMismatch { field: fields.0, expected: rows, actual: matrix.rows });
    }
    if matrix.columns < columns {
        return Err(Error::DimensionMismatch { field: fields.1, expected: columns, actual: matrix.columns });
    }
    Ok(())
}

/// The data-type combinations that `MPSMatrixMultiplication` accepts.
pub open spec fn multiplication_types_spec(left: u32, right: u32, result: u32) -> bool {
    ||| left == data_type::FLOAT32 && (right == data_type::FLOAT32 || right == data_type::FLOAT16)
        && result == data_type::FLOAT32
    ||| left == data_type::FLOAT16 && right == data_type::FLOAT16
        && (result == data_type::FLOAT16 || result == data_type::FLOAT32)
    ||| left == data_type::INT8 && right == data_type::INT8
        && (result == data_type::FLOAT16 || result == data_type::FLOAT32)
    ||| left == data_type::INT16 && right == data_type::INT16 && result == data_type::FLOAT32
}

/// Whether `MPSMatrixMultiplication` supports these operand data types.
pub fn multiplication_types_supported(left: u32, right: u32, result: u32) -> (r: bool)
    ensures
        r == multiplication_types_spec(left, right, result),
{
    (left == data_type::FLOAT32 && (right == data_type::FLOAT32 || right == data_type::FLOAT16)
        && result == data_type::FLOAT32)
    || (left == data_type::FLOAT16 && right == data_type::FLOAT16
        && (result == data_type::FLOAT16 || result == data_type::FLOAT32))
    || (left == data_type::INT8 && right == data_type::INT8
        && (result == data_type::FLOAT16 || result == data_type::FLOAT32))
    || (left == data_type::INT16 && right == data_type::INT16 && result == data_type::FLOAT32)
}

/// The M x N x K geometry of a matrix multiplication and whether each input is transposed.
#[derive(Debug, Clone, Copy)]
pub struct MultiplicationGeometry {
    pub transpose_left: bool,
    pub transpose_right: bool,
    pub result_rows: usize,
    pub result_columns: usize,
    pub interior_columns: usize,
}

impl MultiplicationGeometry {
    /// Rows and columns the left operand must hold: K x M when transposed, else M x K.
    pub open spec fn left_shape(self) -> (usize, usize) {
        if self.transpose_left {
            (self.interior_columns, self.result_rows)
        } else {
            (self.result_rows, self.interior_columns)
        }
    }

    /// Rows and columns the right operand must hold: N x K when transposed, else K x N.
    pub open spec fn right_shape(self) -> (usize, usize) {
        if self.transpose_right {
            (self.result_columns, self.interior_columns)
        } else {
            (self.interior_columns, self.result_columns)
        }
    }

    /// What `check_operands` returns.
    pub open spec fn operands_spec(self, left: MatrixOperand, right: MatrixOperand, result: MatrixOperand) -> Result<()> {
        if covers_spec(left, ("left rows", "left columns"), self.left_shape()) is Err {
            covers_spec(left, ("left rows", "left columns"), self.left_shape())
        } else if covers_spec(right, ("right rows", "right columns"), self.right_shape()) is Err {
            covers_spec(right, ("right rows", "right columns"), self.right_shape())
        } else if covers_spec(result, ("result rows", "result columns"), (self.result_rows, self.result_columns)) is Err {
            covers_spec(result, ("result rows", "result columns"), (self.result_rows, self.result_columns))
        } else if !multiplication_types_spec(left.data_type, right.data_type, result.data_type) {
            Err(Error::InvalidArgument("MPSMatrixMultiplication does not support this combination of data types"))
        } else {
            Ok(())
        }
    }

    /// Checks the operands of an encode: each must cover the shape the
    /// geometry reads or writes, and the data types must be a supported combination.
    pub fn check_operands(&self, left: MatrixOperand, right: MatrixOperand, result: MatrixOperand) -> (r: Result<()>)
        ensures
            r == self.operands_spec(left, right, result),
    {
        let (m, n, k) = (self.result_rows, self.result_columns, self.interior_columns);
        let left_shape = if self.transpose_left { (k, m) } else { (m, k) };
        let right_shape = if self.transpose_right { (n, k) } else { (k, n) };
        let covered = ensure_covers(left, ("left rows", "left columns"), left_shape);
        if covered.is_err() {
            return covered;
        }
        let covered = ensure_covers(right, ("right rows", "right columns"), right_shape);
        if covered.is_err() {
            return covered;
        }
        let covered = ensure_covers(result, ("result rows", "result columns"), (m, n));
        if covered.is_err() {
            return covered;
        }
        if !multiplication_types_supported(left.data_type, right.data_type, result.data_type) {
            return Err(Error::InvalidArgument(
                "MPSMatrixMultiplication does not support this combination of data types",
            ));
        }
        Ok(())
    }

    /// Whether MPS can take the three sizes, which it receives as `NSInteger`s.
    pub fn fits_native(&self) -> (r: bool)
        ensures
            r == (fits_native(self.result_rows as int) && fits_native(self.result_columns as int)
                && fits_native(self.interior_columns as int)),
    {
        let sizes = [self.result_rows, self.result_columns, self.interior_columns];
        let fit = fit_native_int(&sizes);
        proof {
            assert(sizes@[0] == self.result_rows && sizes@[1] == self.result_columns
                && sizes@[2] == self.interior_columns);
        }
        fit.is_ok()
    }
}

/// Every supported data type is 1, 2, 4 or 8 bytes wide.
pub proof fn lemma_element_sizes(data_type: u32)
    requires
        element_size(data_type) is Some,
    ensures
        element_size(data_type) == Some(1usize) || element_size(data_type) == Some(2usize)
            || element_size(data_type) == Some(4usize) || element_size(data_type) == Some(8usize),
{
}

/// An accepted multiplication never reads or writes outside its operands:
/// the left operand holds M x K (K x M transposed), the right K x N (N x K
/// transposed), the result M x N, and the data types are a supported combination.
pub proof fn lemma_accepted_multiplication_fits_operands(
    geometry: MultiplicationGeometry,
    left: MatrixOperand,
    right: MatrixOperand,
    result: MatrixOperand,
)
    requires
        geometry.operands_spec(left, right, result) is Ok,
    ensures
        left.rows >= geometry.left_shape().0 && left.columns >= geometry.left_shape().1,
        right.rows >= geometry.right_shape().0 && right.columns >= geometry.right_shape().1,
        result.rows >= geometry.result_rows && result.columns >= geometry.result_columns,
        multiplication_types_spec(left.data_type, right.data_type, result.data_type),
{
}

/// The byte-wide `MPSDataType`s: every type except the sub-byte integers
/// and `UNORM1`.
pub open spec fn byte_wide_data_type(t: u32) -> bool {
    ||| t == data_type::FLOAT32 || t == data_type::FLOAT16 || t == data_type::BFLOAT16
    ||| t == data_type::INT8 || t == data_type::INT16 || t == data_type::INT32 || t == data_type::INT64
    ||| t == data_type::UINT8 || t == data_type::UINT16 || t == data_type::UINT32 || t == data_type::UINT64
    ||| t == data_type::UNORM8 || t == data_type::BOOL
    ||| t == data_type::COMPLEX_FLOAT32 || t == data_type::COMPLEX_FLOAT16 || t == data_type::COMPLEX_BFLOAT16
}

/// An `MPSDataType` raw value carries its element's width in bits in its
/// low 16 bits. Exactly the byte-wide types have an element size, and it is
/// that bit width divided by 8.
pub proof fn lemma_element_size_is_encoded_bit_width(t: u32)
    ensures
        element_size(t) is Some <==> byte_wide_data_type(t),
        element_size(t) matches Some(s) ==> s >= 1 && s * 8 == t as int % 0x10000,
{
}

} // verus!
