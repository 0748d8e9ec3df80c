use crate::error::{Error, Result};
use crate::matrix::{data_type_size, element_size, fits_native};
use vstd::prelude::*;

mod raw_values;

pub use self::raw_values::NDArrayQuantizationScheme;

verus! {

/// The most dimensions an `MPSNDArray` may have.
pub const MAX_DIMENSIONS: usize = 16;
/// The most elements an `MPSNDArray` may hold (2^31 - 1).
pub const MAX_ELEMENTS: usize = 2147483647;
/// MPS pads the fastest-varying row of an NDArray to a multiple of this many bytes.
pub const ROW_ALIGNMENT: usize = 16;

/// The product of a sequence of lengths.
pub open spec fn product(lengths: Seq<usize>) -> int
    decreases lengths.len(),
{
    if lengths.len() == 0 {
        1
    } else {
        product(lengths.drop_last()) * lengths.last()
    }
}

/// `start` times the product of `lengths`, computed left to right in `usize`:
/// `None` when one of the partial products does not fit.
pub open spec fn checked_scaled_product(start: usize, lengths: Seq<usize>) -> Option<usize> {
    if forall|i: int| 0 <= i <= lengths.len() ==> #[trigger] (start * product(lengths.take(i))) <= usize::MAX {
        Some((start * product(lengths)) as usize)
    } else {
        None
    }
}

/// The number of elements of an array with these lengths, or `None` when
/// counting them overflows `usize`.
pub open spec fn volume_spec(lengths: Seq<usize>) -> Option<usize> {
    checked_scaled_product(1, lengths)
}

proof fn lemma_product_nonnegative(lengths: Seq<usize>)
    ensures
        product(lengths) >= 0,
    decreases lengths.len(),
{
    if lengths.len() > 0 {
        lemma_product_nonnegative(lengths.drop_last());
        vstd::arithmetic::mul::lemma_mul_nonnegative(product(lengths.drop_last()), lengths.last() as int);
    }
}

/// Multiplies `start` by every length in turn, failing on the first overflow.
fn checked_product_from(start: usize, lengths: &[usize]) -> (r: Option<usize>)
    ensures
        r == checked_scaled_product(start, lengths@),
{
    let mut acc = start;
    let mut i: usize = 0;
    proof {
        assert(lengths@.take(0) =~= Seq::<usize>::empty());
        vstd::arithmetic::mul::lemma_mul_basics(start as int);
    }
    while i < lengths.len()
        invariant
            i <= lengths@.len(),
            acc == start * product(lengths@.take(i as int)),
            forall|j: int| 0 <= j <= i ==> #[trigger] (start * product(lengths@.take(j))) <= usize::MAX,
        decreases lengths@.len() - i,
    {
        proof {
            assert(lengths@.take(i + 1).drop_last() =~= lengths@.take(i as int));
            vstd::arithmetic::mul::lemma_mul_is_associative(
                start as int,
                product(lengths@.take(i as int)),
                lengths@[i as int] as int,
            );
        }
        match acc.checked_mul(lengths[i]) {
            Some(next) => {
                acc = next;
            },
            None => {
                proof {
                    assert(start * product(lengths@.take(i + 1)) > usize::MAX);
                }
                return None;
            },
        }
        i = i + 1;
        proof {
            assert forall|j: int| 0 <= j <= i implies #[trigger] (start * product(lengths@.take(j))) <= usize::MAX by {
                if j == i {
                } else {
                }
            }
        }
    }
    proof {
        assert(lengths@.take(lengths@.len() as int) =~= lengths@);
    }
    Some(acc)
}

/// The number of elements of an array with these lengths, or `None` when it overflows.
pub fn volume(lengths: &[usize]) -> (r: Option<usize>)
    ensures
        r == volume_spec(lengths@),
        r matches Some(v) ==> v == product(lengths@),
{
    let r = checked_product_from(1, lengths);
    proof {
        if r is Some {
            vstd::arithmetic::mul::lemma_mul_basics(product(lengths@));
            lemma_product_nonnegative(lengths@);
            assert(lengths@.take(lengths@.len() as int) =~= lengths@);
            assert(1 * product(lengths@.take(lengths@.len() as int)) <= usize::MAX);
        }
    }
    r
}

/// What `validate_dimension_sizes` returns.
pub open spec fn dimension_sizes_spec(sizes: Seq<usize>) -> Result<()> {
    if sizes.len() == 0 || sizes.len() > MAX_DIMENSIONS {
        Err(Error::InvalidArgument("an NDArray has between 1 and 16 dimensions"))
    } else if volume_spec(sizes) is None || volume_spec(sizes).unwrap() > MAX_ELEMENTS {
        Err(Error::InvalidArgument("an NDArray holds fewer than 2^31 elements"))
    } else {
        Ok(())
    }
}

/// Refuses the shapes MPS aborts on: no dimension, more than 16, or 2^31 elements or more.
pub fn validate_dimension_sizes(dimension_sizes: &[usize]) -> (r: Result<()>)
    ensures
        r == dimension_sizes_spec(dimension_sizes@),
{
    if dimension_sizes.len() == 0 || dimension_sizes.len() > MAX_DIMENSIONS {
        return Err(Error::InvalidArgument("an NDArray has between 1 and 16 dimensions"));
    }
    match volume(dimension_sizes) {
        Some(elements) => {
            if elements <= MAX_ELEMENTS {
                Ok(())
            } else {
                Err(Error::InvalidArgument("an NDArray holds fewer than 2^31 elements"))
            }
        },
        None => Err(Error::InvalidArgument("an NDArray holds fewer than 2^31 elements")),
    }
}

/// Refuses a rank above the 16 dimensions an NDArray may have.
pub fn check_rank(number_of_dimensions: usize) -> (r: Result<()>)
    ensures
        r == (if number_of_dimensions > MAX_DIMENSIONS {
            Err(Error::InvalidArgument("an NDArray has at most 16 dimensions"))
        } else {
            Ok(())
        }),
{
    if number_of_dimensions > MAX_DIMENSIONS {
        Err(Error::InvalidArgument("an NDArray has at most 16 dimensions"))
    } else {
        Ok(())
    }
}

/// Refuses a transpose of a dimension at or past the rank.
pub fn check_transpose(number_of_dimensions: usize, dimension_index: usize, other_dimension_index: usize) -> (r: Result<()>)
    ensures
        r == (if dimension_index >= number_of_dimensions || other_dimension_index >= number_of_dimensions {
            Err(Error::InvalidArgument("transposed dimensions must be below number_of_dimensions"))
        } else {
            Ok(())
        }),
{
    if dimension_index >= number_of_dimensions || other_dimension_index >= number_of_dimensions {
        Err(Error::InvalidArgument("transposed dimensions must be below number_of_dimensions"))
    } else {
        Ok(())
    }
}

/// The length of dimension `dimension` of an array with these lengths: 1 past the rank.
pub open spec fn dimension_length(lengths: Seq<usize>, dimension: int) -> usize {
    if 0 <= dimension < lengths.len() {
        lengths[dimension]
    } else {
        1
    }
}

/// `value` rounded up to a multiple of `ROW_ALIGNMENT`.
pub open spec fn padded_row(value: int) -> int {
    if value % (ROW_ALIGNMENT as int) == 0 {
        value
    } else {
        value + (ROW_ALIGNMENT - value % (ROW_ALIGNMENT as int))
    }
}

/// The data type and dimension lengths of an `MPSNDArrayDescriptor`,
/// dimension 0 being the fastest varying.
#[derive(Debug, Clone)]
pub struct NDArrayDescriptor {
    pub data_type: u32,
    pub lengths: Vec<usize>,
}

impl NDArrayDescriptor {
    /// What `required_buffer_length` returns: the bytes of MPS's layout, whose
    /// fastest-varying row is padded to 16 bytes, or why it cannot be had.
    pub open spec fn required_length(self) -> Result<usize> {
        match element_size(self.data_type) {
            None => Err(Error::UnsupportedDataType(self.data_type)),
            Some(element) => {
                let row = dimension_length(self.lengths@, 0) * element;
                if row > usize::MAX || padded_row(row) > usize::MAX {
                    Err(Error::Overflow)
                } else {
                    let rest = if self.lengths@.len() > 0 { self.lengths@.drop_first() } else { self.lengths@ };
                    match checked_scaled_product(padded_row(row) as usize, rest) {
                        None => Err(Error::Overflow),
                        Some(bytes) => if fits_native(bytes as int) { Ok(bytes) } else { Err(Error::Overflow) },
                    }
                }
            },
        }
    }

    /// A descriptor after checking `dimension_sizes` against the shapes MPS accepts.
    pub fn with_dimension_sizes(data_type: u32, dimension_sizes: &[usize]) -> (r: Option<Self>)
        ensures
            r is Some <==> dimension_sizes_spec(dimension_sizes@) is Ok,
            r matches Some(d) ==> d.data_type == data_type && d.lengths@ == dimension_sizes@,
    {
        if validate_dimension_sizes(dimension_sizes).is_err() {
            return None;
        }
        let mut lengths: Vec<usize> = Vec::new();
        let mut i: usize = 0;
        while i < dimension_sizes.len()
            invariant
                i <= dimension_sizes@.len(),
                lengths@ == dimension_sizes@.take(i as int),
            decreases dimension_sizes@.len() - i,
        {
            lengths.push(dimension_sizes[i]);
            i = i + 1;
            proof {
                assert(lengths@ =~= dimension_sizes@.take(i as int));
            }
        }
        proof {
            assert(dimension_sizes@.take(dimension_sizes@.len() as int) =~= dimension_sizes@);
        }
        Some(NDArrayDescriptor { data_type, lengths })
    }

    /// The descriptor's data type.
    pub fn data_type(&self) -> (r: u32)
        ensures
            r == self.data_type,
    {
        self.data_type
    }

    /// The descriptor's rank.
    pub fn number_of_dimensions(&self) -> (r: usize)
        ensures
            r == self.lengths@.len(),
    {
        self.lengths.len()
    }

    /// The length of a dimension; dimensions past the rank have length 1.
    pub fn length_of_dimension(&self, dimension_index: usize) -> (r: usize)
        ensures
            r == dimension_length(self.lengths@, dimension_index as int),
    {
        if dimension_index < self.lengths.len() {
            self.lengths[dimension_index]
        } else {
            1
        }
    }

    /// The number of bytes that a buffer must hold to back an array of this
    /// descriptor in MPS's row-padded layout.
    pub fn required_buffer_length(&self) -> (r: Result<usize>)
        ensures
            r == self.required_length(),
    {
        let data_type = self.data_type;
        let element_size = match data_type_size(data_type) {
            Some(size) => size,
            None => return Err(Error::UnsupportedDataType(data_type)),
        };
        let first = self.length_of_dimension(0);
        let row = match first.checked_mul(element_size) {
            Some(row) => row,
            None => return Err(Error::Overflow),
        };
        let remainder = row % ROW_ALIGNMENT;
        let padded = if remainder == 0 {
            row
        } else {
            match row.checked_add(ROW_ALIGNMENT - remainder) {
                Some(padded) => padded,
                None => return Err(Error::Overflow),
            }
        };
        let rest: &[usize] = if self.lengths.len() > 0 {
            let s = self.lengths.as_slice();
            vstd::slice::slice_subrange(s, 1, s.len())
        } else {
            self.lengths.as_slice()
        };
        proof {
            if self.lengths@.len() > 0 {
                assert(rest@ =~= self.lengths@.drop_first());
            }
        }
        match checked_product_from(padded, rest) {
            None => Err(Error::Overflow),
            Some(bytes) => {
                if bytes > isize::MAX as usize {
                    Err(Error::Overflow)
                } else {
                    Ok(bytes)
                }
            },
        }
    }

    /// Checks that a buffer of `buffer_length` bytes can back this descriptor
    /// at byte `offset`: the offset is element aligned and the padded layout fits after it.
    pub fn check_buffer(&self, offset: usize, buffer_length: usize) -> (r: Result<()>)
        ensures
            r == self.buffer_spec(offset, buffer_length),
    {
        let element_size = match data_type_size(self.data_type) {
            Some(size) => size,
            None => return Err(Error::UnsupportedDataType(self.data_type)),
        };
        if offset % element_size != 0 {
            return Err(Error::Misaligned { field: "offset", value: offset, alignment: element_size });
        }
        let length = match self.required_buffer_length() {
            Ok(length) => length,
            Err(error) => return Err(error),
        };
        let required = match offset.checked_add(length) {
            Some(required) => required,
            None => return Err(Error::Overflow),
        };
        if required > buffer_length {
            return Err(Error::BufferTooSmall { required, length: buffer_length });
        }
        Ok(())
    }

    /// What `check_buffer` returns.
    pub open spec fn buffer_spec(self, offset: usize, buffer_length: usize) -> Result<()> {
        match element_size(self.data_type) {
            None => Err(Error::UnsupportedDataType(self.data_type)),
            Some(element) => if offset % element != 0 {
                Err(Error::Misaligned { field: "offset", value: offset, alignment: element })
            } else {
                match self.required_length() {
                    Err(error) => Err(error),
                    Ok(length) => if offset + length > usize::MAX {
                        Err(Error::Overflow)
                    } else if offset + length > buffer_length {
                        Err(Error::BufferTooSmall { required: (offset + length) as usize, length: buffer_length })
                    } else {
                        Ok(())
                    }
                }
            },
        }
    }
}

/// Whether an identity reshape of an array with `source` lengths into
/// `sizes` (slowest-varying first) keeps the element count, and, when a
/// destination is given, whether its lengths are exactly those sizes.
pub open spec fn reshape_valid_spec(source: Seq<usize>, sizes: Seq<usize>, destination: Option<Seq<usize>>) -> bool {
    &&& 1 <= sizes.len() <= MAX_DIMENSIONS
    &&& volume_spec(sizes) is Some
    &&& volume_spec(sizes) == volume_spec(source)
    &&& destination matches Some(d) ==> d == sizes.reverse()
}

/// Checks an identity reshape of an array with `source_lengths` into
/// `dimension_sizes` (given slowest-varying first, as MPS takes them).
#[verifier::loop_isolation(false)]
pub fn reshape_is_valid(source_lengths: &[usize], dimension_sizes: &[usize], destination: Option<&[usize]>) -> (r: bool)
    ensures
        r == reshape_valid_spec(
            source_lengths@,
            dimension_sizes@,
            match destination {
                Some(d) => Some(d@),
                None => None,
            },
        ),
{
    if dimension_sizes.len() == 0 || dimension_sizes.len() > MAX_DIMENSIONS {
        return false;
    }
    let target = volume(dimension_sizes);
    let source = volume(source_lengths);
    match target {
        None => return false,
        Some(t) => match source {
            Some(v) => if t != v {
                return false;
            },
            None => return false,
        },
    }
    match destination {
        None => true,
        Some(d) => {
            let n = dimension_sizes.len();
            if d.len() != n {
                return false;
            }
            let mut i: usize = 0;
            while i < n
                invariant
                    n == dimension_sizes@.len(),
                    d@.len() == n,
                    i <= n,
                    forall|j: int| 0 <= j < i ==> d@[j] == #[trigger] dimension_sizes@.reverse()[j],
                decreases n - i,
            {
                if d[i] != dimension_sizes[n - 1 - i] {
                    proof {
                        assert(dimension_sizes@.reverse()[i as int] == dimension_sizes@[n - 1 - i]);
                        assert(d@[i as int] != dimension_sizes@.reverse()[i as int]);
                    }
                    return false;
                }
                i = i + 1;
            }
            proof {
                assert(d@ =~= dimension_sizes@.reverse());
            }
            true
        },
    }
}

/// The lengths of each array in a list.
pub open spec fn lengths_of(arrays: Seq<Vec<usize>>) -> Seq<Seq<usize>> {
    arrays.map_values(|array: Vec<usize>| array@)
}

/// The larger of two integers.
pub open spec fn max_int(a: int, b: int) -> int {
    if a >= b { a } else { b }
}

/// The largest rank among the arrays, and at least 2.
pub open spec fn max_rank(arrays: Seq<Seq<usize>>) -> int
    decreases arrays.len(),
{
    if arrays.len() == 0 {
        2
    } else {
        max_int(max_rank(arrays.drop_last()), arrays.last().len() as int)
    }
}

/// The rank of a batched matrix product over `sources` written to `destination`.
pub open spec fn multiplication_rank(sources: Seq<Seq<usize>>, destination: Option<Seq<usize>>) -> int {
    match destination {
        Some(d) => max_int(max_rank(sources), d.len() as int),
        None => max_rank(sources),
    }
}

/// Whether two batch lengths broadcast against each other.
pub open spec fn broadcastable(a: usize, b: usize) -> bool {
    a == b || a == 1 || b == 1
}

/// The first batch dimension at or after `dimension` whose lengths do not broadcast.
pub open spec fn first_batch_mismatch(left: Seq<usize>, right: Seq<usize>, dimension: int, rank: int) -> Option<int>
    decreases rank - dimension,
{
    if dimension >= rank {
        None
    } else if !broadcastable(dimension_length(left, dimension), dimension_length(right, dimension)) {
        Some(dimension)
    } else {
        first_batch_mismatch(left, right, dimension + 1, rank)
    }
}

/// The shape of `left x right`: N, M, then the broadcast batch lengths.
pub open spec fn product_shape(left: Seq<usize>, right: Seq<usize>, rank: int) -> Seq<usize> {
    Seq::new(rank as nat, |d: int|
        if d == 0 {
            dimension_length(right, 0)
        } else if d == 1 {
            dimension_length(left, 1)
        } else if dimension_length(left, d) >= dimension_length(right, d) {
            dimension_length(left, d)
        } else {
            dimension_length(right, d)
        })
}

/// Whether `array` covers `expected` at one dimension (or broadcasts a length of 1).
pub open spec fn covers_dimension(actual: usize, expected: usize, broadcast: bool) -> bool {
    actual >= expected || (broadcast && actual == 1)
}

/// The first dimension at or after `dimension` where `array` does not cover `shape`.
pub open spec fn first_uncovered(array: Seq<usize>, shape: Seq<usize>, broadcast: bool, dimension: int) -> Option<int>
    decreases shape.len() - dimension,
{
    if dimension >= shape.len() {
        None
    } else if !covers_dimension(dimension_length(array, dimension), shape[dimension], broadcast) {
        Some(dimension)
    } else {
        first_uncovered(array, shape, broadcast, dimension + 1)
    }
}

/// The outcome of checking that `array` covers `shape`.
pub open spec fn covers_shape(array: Seq<usize>, shape: Seq<usize>, field: &'static str, broadcast: bool) -> Result<()> {
    match first_uncovered(array, shape, broadcast, 0) {
        Some(d) => Err(Error::DimensionMismatch { field, expected: shape[d], actual: dimension_length(array, d) }),
        None => Ok(()),
    }
}

/// What `validate_multiplication` returns.
pub open spec fn multiplication_spec(source_count: usize, sources: Seq<Seq<usize>>, destination: Option<Seq<usize>>) -> Result<()> {
    if sources.len() != source_count {
        Err(Error::DimensionMismatch { field: "source array count", expected: source_count, actual: sources.len() as usize })
    } else {
        let left = sources[0];
        let right = sources[1];
        let rank = multiplication_rank(sources, destination);
        if dimension_length(right, 1) != dimension_length(left, 0) {
            Err(Error::DimensionMismatch {
                field: "interior dimension",
                expected: dimension_length(left, 0),
                actual: dimension_length(right, 1),
            })
        } else if first_batch_mismatch(left, right, 2, rank) is Some {
            let d = first_batch_mismatch(left, right, 2, rank).unwrap();
            Err(Error::DimensionMismatch {
                field: "batch dimension",
                expected: dimension_length(left, d),
                actual: dimension_length(right, d),
            })
        } else {
            let shape = product_shape(left, right, rank);
            if sources.len() > 2 && covers_shape(sources[2], shape, "addend dimension", true) is Err {
                covers_shape(sources[2], shape, "addend dimension", true)
            } else {
                match destination {
                    Some(d) => covers_shape(d, shape, "destination dimension", false),
                    None => Ok(()),
                }
            }
        }
    }
}

fn length_at(lengths: &Vec<usize>, dimension: usize) -> (r: usize)
    ensures
        r == dimension_length(lengths@, dimension as int),
{
    if dimension < lengths.len() {
        lengths[dimension]
    } else {
        1
    }
}

fn check_covers(array: &Vec<usize>, shape: &Vec<usize>, field: &'static str, broadcast: bool) -> (r: Result<()>)
    ensures
        r == covers_shape(array@, shape@, field, broadcast),
{
    let mut d: usize = 0;
    while d < shape.len()
        invariant
            d <= shape@.len(),
            first_uncovered(array@, shape@, broadcast, 0) == first_uncovered(array@, shape@, broadcast, d as int),
        decreases shape@.len() - d,
    {
        let expected = shape[d];
        let actual = length_at(array, d);
        if !(actual >= expected || (broadcast && actual == 1)) {
            return Err(Error::DimensionMismatch { field, expected, actual });
        }
        d = d + 1;
    }
    Ok(())
}

proof fn lemma_max_rank_at_least_two(arrays: Seq<Seq<usize>>)
    ensures
        max_rank(arrays) >= 2,
    decreases arrays.len(),
{
    if arrays.len() > 0 {
        lemma_max_rank_at_least_two(arrays.drop_last());
    }
}

/// Checks the sources and destination of a batched NDArray matrix product:
/// the source count, the interior dimension, broadcastable batch dimensions,
/// and that the addend and destination cover the product's shape.
#[verifier::loop_isolation(false)]
pub fn validate_multiplication(source_count: usize, sources: &[Vec<usize>], destination: Option<&Vec<usize>>) -> (r: Result<()>)
    requires
        source_count >= 2,
    ensures
        r == multiplication_spec(
            source_count,
            lengths_of(sources@),
            match destination {
                Some(d) => Some(d@),
                None => None,
            },
        ),
{
    let ghost all = lengths_of(sources@);
    let ghost dest = match destination {
        Some(d) => Some(d@),
        None => None::<Seq<usize>>,
    };
    if sources.len() != source_count {
        return Err(Error::DimensionMismatch {
            field: "source array count",
            expected: source_count,
            actual: sources.len(),
        });
    }
    let left = &sources[0];
    let right = &sources[1];
    proof {
        assert(all[0] == left@ && all[1] == right@);
    }
    let interior = length_at(left, 0);
    let right_interior = length_at(right, 1);
    if right_interior != interior {
        return Err(Error::DimensionMismatch {
            field: "interior dimension",
            expected: interior,
            actual: right_interior,
        });
    }
    let mut rank: usize = 2;
    let mut i: usize = 0;
    while i < sources.len()
        invariant
            i <= sources@.len(),
            all == lengths_of(sources@),
            rank as int == max_rank(all.take(i as int)),
        decreases sources@.len() - i,
    {
        proof {
            assert(all.take(i + 1).drop_last() =~= all.take(i as int));
            assert(all.take(i + 1).last() == sources@[i as int]@);
        }
        let n = sources[i].len();
        if n > rank {
            rank = n;
        }
        i = i + 1;
    }
    proof {
        assert(all.take(sources@.len() as int) =~= all);
        lemma_max_rank_at_least_two(all);
    }
    match destination {
        Some(d) => {
            if d.len() > rank {
                rank = d.len();
            }
        },
        None => {},
    }
    assert(rank as int == multiplication_rank(all, dest));
    let mut shape: Vec<usize> = Vec::new();
    shape.push(length_at(right, 0));
    shape.push(length_at(left, 1));
    let ghost full = product_shape(left@, right@, rank as int);
    let mut d: usize = 2;
    while d < rank
        invariant
            2 <= d <= rank,
            full == product_shape(left@, right@, rank as int),
            shape@ == full.take(d as int),
            first_batch_mismatch(left@, right@, 2, rank as int)
                == first_batch_mismatch(left@, right@, d as int, rank as int),
        decreases rank - d,
    {
        let a = length_at(left, d);
        let b = length_at(right, d);
        if a != b && a != 1 && b != 1 {
            return Err(Error::DimensionMismatch { field: "batch dimension", expected: a, actual: b });
        }
        shape.push(if a >= b { a } else { b });
        d = d + 1;
        proof {
            assert(shape@ =~= full.take(d as int));
        }
    }
    proof {
        assert(shape@ =~= full);
    }
    if sources.len() > 2 {
        proof {
            assert(all[2] == sources@[2]@);
        }
        let covered = check_covers(&sources[2], &shape, "addend dimension", true);
        if covered.is_err() {
            return covered;
        }
    }
    match destination {
        Some(d) => check_covers(d, &shape, "destination dimension", false),
        None => Ok(()),
    }
}

proof fn lemma_first_uncovered_none(array: Seq<usize>, shape: Seq<usize>, broadcast: bool, from: int)
    requires
        0 <= from,
        first_uncovered(array, shape, broadcast, from) is None,
    ensures
        forall|d: int| from <= d < shape.len() ==>
            covers_dimension(dimension_length(array, d), #[trigger] shape[d], broadcast),
    decreases shape.len() - from,
{
    if from < shape.len() {
        lemma_first_uncovered_none(array, shape, broadcast, from + 1);
    }
}

proof fn lemma_first_batch_mismatch_none(left: Seq<usize>, right: Seq<usize>, from: int, rank: int)
    requires
        first_batch_mismatch(left, right, from, rank) is None,
    ensures
        forall|d: int| from <= d < rank ==>
            broadcastable(#[trigger] dimension_length(left, d), dimension_length(right, d)),
    decreases rank - from,
{
    if from < rank {
        lemma_first_batch_mismatch_none(left, right, from + 1, rank);
    }
}

/// An accepted batched product is consistent: the interior lengths agree,
/// every batch dimension broadcasts, the addend covers (or broadcasts over)
/// the product's shape, and the destination covers it in every dimension.
pub proof fn lemma_accepted_multiplication_is_consistent(
    source_count: usize,
    sources: Seq<Seq<usize>>,
    destination: Option<Seq<usize>>,
)
    requires
        source_count >= 2,
        multiplication_spec(source_count, sources, destination) is Ok,
    ensures
        ({
            let left = sources[0];
            let right = sources[1];
            let rank = multiplication_rank(sources, destination);
            let shape = product_shape(left, right, rank);
            &&& dimension_length(right, 1) == dimension_length(left, 0)
            &&& forall|d: int| 2 <= d < rank ==>
                broadcastable(#[trigger] dimension_length(left, d), dimension_length(right, d))
            &&& sources.len() > 2 ==> forall|d: int| 0 <= d < rank ==>
                covers_dimension(dimension_length(sources[2], d), #[trigger] shape[d], true)
            &&& destination matches Some(dst) ==> forall|d: int| 0 <= d < rank ==>
                #[trigger] dimension_length(dst, d) >= shape[d]
        }),
{
    let left = sources[0];
    let right = sources[1];
    let rank = multiplication_rank(sources, destination);
    let shape = product_shape(left, right, rank);
    lemma_first_batch_mismatch_none(left, right, 2, rank);
    if sources.len() > 2 {
        lemma_first_uncovered_none(sources[2], shape, true, 0);
    }
    if let Some(dst) = destination {
        lemma_first_uncovered_none(dst, shape, false, 0);
        assert forall|d: int| 0 <= d < rank implies #[trigger] dimension_length(dst, d) >= shape[d] by {
            assert(covers_dimension(dimension_length(dst, d), shape[d], false));
        }
    }
}

/// The row padding rounds up to the next multiple of 16 bytes and never shrinks a row.
pub proof fn lemma_padded_row(value: int)
    requires
        value >= 0,
    ensures
        padded_row(value) % (ROW_ALIGNMENT as int) == 0,
        value <= padded_row(value) < value + ROW_ALIGNMENT,
{
}

/// An accepted NDArray layout spans its padded fastest-varying row times the
/// lengths of all other dimensions.
pub proof fn lemma_ndarray_required_length(descriptor: NDArrayDescriptor)
    requires
        descriptor.required_length() is Ok,
        descriptor.lengths@.len() > 0,
    ensures
        ({
            let element = element_size(descriptor.data_type).unwrap() as int;
            let row = padded_row(descriptor.lengths@[0] * element);
            &&& row % (ROW_ALIGNMENT as int) == 0
            &&& row >= descriptor.lengths@[0] * element
            &&& descriptor.required_length().unwrap() == row * product(descriptor.lengths@.drop_first())
        }),
{
    let element = element_size(descriptor.data_type).unwrap() as int;
    vstd::arithmetic::mul::lemma_mul_nonnegative(descriptor.lengths@[0] as int, element);
    lemma_padded_row(descriptor.lengths@[0] * element);
    let rest = descriptor.lengths@.drop_first();
    let row = padded_row(descriptor.lengths@[0] * element);
    assert(rest.take(rest.len() as int) =~= rest);
    assert((row as usize) * product(rest.take(rest.len() as int)) <= usize::MAX);
    lemma_product_nonnegative(rest);
    vstd::arithmetic::mul::lemma_mul_nonnegative(row, product(rest));
}

/// Whether `MPSNDArrayMatrixMultiplication` takes this many sources: two
/// factors, and optionally an addend.
pub fn multiplication_source_count_valid(source_count: usize) -> (r: bool)
    ensures
        r == (2 <= source_count <= 3),
{
    2 <= source_count && source_count <= 3
}

/// An accepted buffer backs the whole padded layout: the offset is element
/// aligned and the layout ends inside the buffer.
pub proof fn lemma_accepted_buffer_holds_layout(descriptor: NDArrayDescriptor, offset: usize, buffer_length: usize)
    requires
        descriptor.buffer_spec(offset, buffer_length) is Ok,
    ensures
        element_size(descriptor.data_type) is Some,
        offset % element_size(descriptor.data_type).unwrap() == 0,
        descriptor.required_length() is Ok,
        offset + descriptor.required_length().unwrap() <= buffer_length,
{
}


/// Every prefix product of a shape without a zero length is at least 1 and
/// at most the whole product.
proof fn lemma_prefix_products_bounded(lengths: Seq<usize>)
    requires
        forall|i: int| 0 <= i < lengths.len() ==> #[trigger] lengths[i] >= 1,
    ensures
        forall|i: int| 0 <= i <= lengths.len() ==>
            1 <= #[trigger] product(lengths.take(i)) <= product(lengths),
    decreases lengths.len(),
{
    assert(lengths.take(lengths.len() as int) =~= lengths);
    if lengths.len() > 0 {
        let front = lengths.drop_last();
        assert forall|i: int| 0 <= i < front.len() implies #[trigger] front[i] >= 1 by {
            assert(front[i] == lengths[i]);
        }
        lemma_prefix_products_bounded(front);
        let last = lengths.last() as int;
        assert(last >= 1);
        let p = product(front);
        assert(front.take(front.len() as int) =~= front);
        assert(1 <= product(front.take(front.len() as int)));
        assert(1 <= p);
        assert(p <= p * last) by (nonlinear_arith)
            requires
                p >= 1,
                last >= 1,
        ;
        assert forall|i: int| 0 <= i <= lengths.len() implies
            1 <= #[trigger] product(lengths.take(i)) <= product(lengths) by {
            if i < lengths.len() {
                assert(lengths.take(i) =~= front.take(i));
            }
        }
    }
}

/// A counted volume is the product of the lengths.
proof fn lemma_volume_is_product(lengths: Seq<usize>)
    requires
        volume_spec(lengths) is Some,
    ensures
        volume_spec(lengths).unwrap() == product(lengths),
        0 <= product(lengths) <= usize::MAX,
{
    assert(lengths.take(lengths.len() as int) =~= lengths);
    assert(1 * product(lengths.take(lengths.len() as int)) <= usize::MAX);
    lemma_product_nonnegative(lengths);
}

/// A shape without a zero length whose product fits `usize` is counted.
proof fn lemma_volume_of_nonzero_shape(lengths: Seq<usize>)
    requires
        forall|i: int| 0 <= i < lengths.len() ==> #[trigger] lengths[i] >= 1,
        product(lengths) <= usize::MAX,
    ensures
        volume_spec(lengths) is Some,
{
    lemma_prefix_products_bounded(lengths);
    assert forall|i: int| 0 <= i <= lengths.len() implies #[trigger] (1 * product(lengths.take(i))) <= usize::MAX by {
        assert(product(lengths.take(i)) <= product(lengths));
    }
}

/// An identity reshape in product form: it is valid exactly when it asks for
/// 1 to 16 dimensions whose product is the source's element count, and a
/// destination, when given, has exactly those sizes, dimension 0 being the
/// last size. Stated for a source whose element count fits `usize` (every
/// NDArray holds fewer than 2^31 elements) and for sizes that are all
/// nonzero or whose count does not overflow on the way.
pub proof fn lemma_reshape_valid_in_product_form(
    source: Seq<usize>,
    sizes: Seq<usize>,
    destination: Option<Seq<usize>>,
)
    requires
        volume_spec(source) is Some,
        (forall|i: int| 0 <= i < sizes.len() ==> #[trigger] sizes[i] >= 1) || volume_spec(sizes) is Some,
    ensures
        reshape_valid_spec(source, sizes, destination) <==> {
            &&& 1 <= sizes.len() <= MAX_DIMENSIONS
            &&& product(sizes) == product(source)
            &&& destination matches Some(d) ==> {
                &&& d.len() == sizes.len()
                &&& forall|i: int| 0 <= i < sizes.len() ==> #[trigger] d[i] == sizes[sizes.len() - 1 - i]
            }
        },
{
    lemma_volume_is_product(source);
    if volume_spec(sizes) is Some {
        lemma_volume_is_product(sizes);
    } else {
        if product(sizes) <= usize::MAX {
            lemma_volume_of_nonzero_shape(sizes);
        }
        assert(product(sizes) != product(source));
    }
    if let Some(d) = destination {
        let n = sizes.len() as int;
        if d.len() == n && forall|i: int| 0 <= i < n ==> #[trigger] d[i] == sizes[n - 1 - i] {
            assert(d =~= sizes.reverse());
        }
        if d == sizes.reverse() {
            assert forall|i: int| 0 <= i < n implies #[trigger] d[i] == sizes[n - 1 - i] by {
                assert(sizes.reverse()[i] == sizes[n - 1 - i]);
            }
        }
    }
}

proof fn lemma_first_batch_mismatch_some(left: Seq<usize>, right: Seq<usize>, from: int, rank: int)
    requires
        first_batch_mismatch(left, right, from, rank) is Some,
    ensures
        ({
            let d = first_batch_mismatch(left, right, from, rank).unwrap();
            from <= d < rank && !broadcastable(dimension_length(left, d), dimension_length(right, d))
        }),
    decreases rank - from,
{
    if from < rank && broadcastable(dimension_length(left, from), dimension_length(right, from)) {
        lemma_first_batch_mismatch_some(left, right, from + 1, rank);
    }
}

proof fn lemma_first_uncovered_some(array: Seq<usize>, shape: Seq<usize>, broadcast: bool, from: int)
    requires
        first_uncovered(array, shape, broadcast, from) is Some,
    ensures
        ({
            let d = first_uncovered(array, shape, broadcast, from).unwrap();
            from <= d < shape.len() && !covers_dimension(dimension_length(array, d), shape[d], broadcast)
        }),
    decreases shape.len() - from,
{
    if from < shape.len() && covers_dimension(dimension_length(array, from), shape[from], broadcast) {
        lemma_first_uncovered_some(array, shape, broadcast, from + 1);
    }
}

/// A batched product is accepted exactly when it has `source_count`
/// sources, the left array's dimension 0 equals the right array's dimension
/// 1, every batch dimension broadcasts, the addend (if any) covers or
/// broadcasts over the product's shape, and the destination (if any) covers
/// it in every dimension.
pub proof fn lemma_multiplication_accepted_exactly_when(
    source_count: usize,
    sources: Seq<Seq<usize>>,
    destination: Option<Seq<usize>>,
)
    requires
        source_count >= 2,
    ensures
        multiplication_spec(source_count, sources, destination) is Ok <==> {
            let left = sources[0];
            let right = sources[1];
            let rank = multiplication_rank(sources, destination);
            let shape = product_shape(left, right, rank);
            &&& sources.len() == source_count
            &&& dimension_length(right, 1) == dimension_length(left, 0)
            &&& forall|d: int| 2 <= d < rank ==>
                broadcastable(#[trigger] dimension_length(left, d), dimension_length(right, d))
            &&& sources.len() > 2 ==> forall|d: int| 0 <= d < rank ==>
                covers_dimension(dimension_length(sources[2], d), #[trigger] shape[d], true)
            &&& destination matches Some(dst) ==> forall|d: int| 0 <= d < rank ==>
                #[trigger] dimension_length(dst, d) >= shape[d]
        },
{
    if multiplication_spec(source_count, sources, destination) is Ok {
        lemma_accepted_multiplication_is_consistent(source_count, sources, destination);
    } else if sources.len() == source_count {
        let left = sources[0];
        let right = sources[1];
        let rank = multiplication_rank(sources, destination);
        let shape = product_shape(left, right, rank);
        if dimension_length(right, 1) == dimension_length(left, 0) {
            if first_batch_mismatch(left, right, 2, rank) is Some {
                lemma_first_batch_mismatch_some(left, right, 2, rank);
            } else if sources.len() > 2 && covers_shape(sources[2], shape, "addend dimension", true) is Err {
                lemma_first_uncovered_some(sources[2], shape, true, 0);
            } else if let Some(dst) = destination {
                lemma_first_uncovered_some(dst, shape, false, 0);
                let d = first_uncovered(dst, shape, false, 0).unwrap();
                assert(!(dimension_length(dst, d) >= shape[d]));
            }
        }
    }
}

/// The bytes of MPS's padded layout: the row of dimension 0 rounded up to 16
/// bytes, times the lengths of every other dimension.
pub open spec fn padded_layout_bytes(lengths: Seq<usize>, element: int) -> int {
    let rest = if lengths.len() > 0 { lengths.drop_first() } else { lengths };
    padded_row(dimension_length(lengths, 0) * element) * product(rest)
}

/// Whether every step of counting the padded layout fits `usize`.
pub open spec fn padded_layout_counts(lengths: Seq<usize>, element: int) -> bool {
    let rest = if lengths.len() > 0 { lengths.drop_first() } else { lengths };
    let row = dimension_length(lengths, 0) * element;
    &&& row <= usize::MAX
    &&& padded_row(row) <= usize::MAX
    &&& checked_scaled_product(padded_row(row) as usize, rest) is Some
}

/// The required length of an NDArray descriptor in closed form: the padded
/// layout's bytes when they fit an `NSInteger`, `Overflow` otherwise, and
/// `UnsupportedDataType` for a type without an element size. Stated for
/// shapes without a zero length, and for any shape whose count does not
/// overflow on the way.
pub proof fn lemma_required_length_is_padded_layout(descriptor: NDArrayDescriptor)
    requires
        (forall|i: int| 0 <= i < descriptor.lengths@.len() ==> #[trigger] descriptor.lengths@[i] >= 1)
            || (element_size(descriptor.data_type) matches Some(s)
                && padded_layout_counts(descriptor.lengths@, s as int)),
    ensures
        element_size(descriptor.data_type) is None
            ==> descriptor.required_length() == Err::<usize, Error>(Error::UnsupportedDataType(descriptor.data_type)),
        element_size(descriptor.data_type) matches Some(s) ==> descriptor.required_length() == (
            if padded_layout_bytes(descriptor.lengths@, s as int) <= isize::MAX {
                Ok::<usize, Error>(padded_layout_bytes(descriptor.lengths@, s as int) as usize)
            } else {
                Err::<usize, Error>(Error::Overflow)
            }),
{
    if let Some(s) = element_size(descriptor.data_type) {
        let lengths = descriptor.lengths@;
        let rest = if lengths.len() > 0 { lengths.drop_first() } else { lengths };
        let row = dimension_length(lengths, 0) * (s as int);
        let padded = padded_row(row);
        let v = padded_layout_bytes(lengths, s as int);
        assert(v == padded * product(rest));
        vstd::arithmetic::mul::lemma_mul_nonnegative(dimension_length(lengths, 0) as int, s as int);
        lemma_padded_row(row);
        lemma_product_nonnegative(rest);
        assert(rest.take(rest.len() as int) =~= rest);
        if padded_layout_counts(lengths, s as int) {
            assert((padded_row(row) as usize) * product(rest.take(rest.len() as int)) <= usize::MAX);
        } else {
            assert forall|i: int| 0 <= i < rest.len() implies #[trigger] rest[i] >= 1 by {
                assert(rest[i] == lengths[i + 1]);
            }
            lemma_prefix_products_bounded(rest);
            let q = product(rest);
            assert(q >= 1);
            assert(padded <= padded * q) by (nonlinear_arith)
                requires
                    padded >= 0,
                    q >= 1,
            ;
            if v <= usize::MAX {
                assert forall|i: int| 0 <= i <= rest.len() implies
                    #[trigger] ((padded as usize) * product(rest.take(i))) <= usize::MAX by {
                    vstd::arithmetic::mul::lemma_mul_inequality(product(rest.take(i)), q, padded);
                    vstd::arithmetic::mul::lemma_mul_is_commutative(product(rest.take(i)), padded);
                    vstd::arithmetic::mul::lemma_mul_is_commutative(q, padded);
                }
            } else if row <= usize::MAX && padded <= usize::MAX {
                assert(!((padded as usize) * product(rest.take(rest.len() as int)) <= usize::MAX));
            }
        }
    }
}

} // verus!
