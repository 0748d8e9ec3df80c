//! Raw-value wrappers for matrix enums.
use vstd::prelude::*;
use vstd::std_specs::convert::FromSpecImpl;

verus! {

/// An `MPSMatrixRandomDistribution` raw value.
#[derive(Clone, Copy, Debug, Default, PartialEq, Eq, Structural, PartialOrd, Ord, Hash)]
pub struct MatrixRandomDistribution(pub usize);

impl MatrixRandomDistribution {
    /// Wraps a raw value.
    pub fn from_raw(raw: usize) -> (r: Self)
        ensures
            r.0 == raw,
    {
        MatrixRandomDistribution(raw)
    }

    /// The raw value.
    pub fn as_raw(self) -> (r: usize)
        ensures
            r == self.0,
    {
        self.0
    }
}

impl From<usize> for MatrixRandomDistribution {
    fn from(value: usize) -> (r: Self) {
        MatrixRandomDistribution(value)
    }
}

impl FromSpecImpl<usize> for MatrixRandomDistribution {
    open spec fn obeys_from_spec() -> bool {
        true
    }

    open spec fn from_spec(v: usize) -> MatrixRandomDistribution {
        MatrixRandomDistribution(v)
    }
}

impl From<MatrixRandomDistribution> for usize {
    fn from(value: MatrixRandomDistribution) -> (r: usize) {
        value.0
    }
}

impl FromSpecImpl<MatrixRandomDistribution> for usize {
    open spec fn obeys_from_spec() -> bool {
        true
    }

    open spec fn from_spec(v: MatrixRandomDistribution) -> usize {
        v.0
    }
}

/// An `MPSMatrixDecompositionStatus` raw value.
#[derive(Clone, Copy, Debug, Default, PartialEq, Eq, Structural, PartialOrd, Ord, Hash)]
pub struct MatrixDecompositionStatus(pub i32);

impl MatrixDecompositionStatus {
    /// Wraps a raw value.
    pub fn from_raw(raw: i32) -> (r: Self)
        ensures
            r.0 == raw,
    {
        MatrixDecompositionStatus(raw)
    }

    /// The raw value.
    pub fn as_raw(self) -> (r: i32)
        ensures
            r == self.0,
    {
        self.0
    }
}

impl From<i32> for MatrixDecompositionStatus {
    fn from(value: i32) -> (r: Self) {
        MatrixDecompositionStatus(value)
    }
}

impl FromSpecImpl<i32> for MatrixDecompositionStatus {
    open spec fn obeys_from_spec() -> bool {
        true
    }

    open spec fn from_spec(v: i32) -> MatrixDecompositionStatus {
        MatrixDecompositionStatus(v)
    }
}

impl From<MatrixDecompositionStatus> for i32 {
    fn from(value: MatrixDecompositionStatus) -> (r: i32) {
        value.0
    }
}

impl FromSpecImpl<MatrixDecompositionStatus> for i32 {
    open spec fn obeys_from_spec() -> bool {
        true
    }

    open spec fn from_spec(v: MatrixDecompositionStatus) -> i32 {
        v.0
    }
}

} // verus!
