//! Raw-value wrappers for NDArray enums.
use vstd::prelude::*;
use vstd::std_specs::convert::FromSpecImpl;

verus! {

/// An `MPSNDArrayQuantizationScheme` raw value.
#[derive(Clone, Copy, Debug, Default, PartialEq, Eq, Structural, PartialOrd, Ord, Hash)]
pub struct NDArrayQuantizationScheme(pub usize);

impl NDArrayQuantizationScheme {
    /// Wraps a raw value.
    pub fn from_raw(raw: usize) -> (r: Self)
        ensures
            r.0 == raw,
    {
        NDArrayQuantizationScheme(raw)
    }

    /// The raw value.
    pub fn as_raw(self) -> (r: usize)
        ensures
            r == self.0,
    {
        self.0
    }
}

impl From<usize> for NDArrayQuantizationScheme {
    fn from(value: usize) -> (r: Self) {
        NDArrayQuantizationScheme(value)
    }
}

impl FromSpecImpl<usize> for NDArrayQuantizationScheme {
    open spec fn obeys_from_spec() -> bool {
        true
    }

    open spec fn from_spec(v: usize) -> NDArrayQuantizationScheme {
        NDArrayQuantizationScheme(v)
    }
}

impl From<NDArrayQuantizationScheme> for usize {
    fn from(value: NDArrayQuantizationScheme) -> (r: usize) {
        value.0
    }
}

impl FromSpecImpl<NDArrayQuantizationScheme> for usize {
    open spec fn obeys_from_spec() -> bool {
        true
    }

    open spec fn from_spec(v: NDArrayQuantizationScheme) -> usize {
        v.0
    }
}

} // verus!
