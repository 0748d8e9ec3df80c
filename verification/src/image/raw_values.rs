//! Raw-value wrappers for image enums.
use vstd::prelude::*;
use vstd::std_specs::convert::FromSpecImpl;

verus! {

/// An `MPSAlphaType` raw value.
#[derive(Clone, Copy, Debug, Default, PartialEq, Eq, Structural, PartialOrd, Ord, Hash)]
pub struct AlphaType(pub usize);

impl AlphaType {
    /// Wraps a raw value.
    pub fn from_raw(raw: usize) -> (r: Self)
        ensures
            r.0 == raw,
    {
        AlphaType(raw)
    }

    /// The raw value.
    pub fn as_raw(self) -> (r: usize)
        ensures
            r == self.0,
    {
        self.0
    }
}

impl From<usize> for AlphaType {
    fn from(value: usize) -> (r: Self) {
        AlphaType(value)
    }
}

impl FromSpecImpl<usize> for AlphaType {
    open spec fn obeys_from_spec() -> bool {
        true
    }

    open spec fn from_spec(v: usize) -> AlphaType {
        AlphaType(v)
    }
}

impl From<AlphaType> for usize {
    fn from(value: AlphaType) -> (r: usize) {
        value.0
    }
}

impl FromSpecImpl<AlphaType> for usize {
    open spec fn obeys_from_spec() -> bool {
        true
    }

    open spec fn from_spec(v: AlphaType) -> usize {
        v.0
    }
}

/// An `MPSImageType` raw value.
#[derive(Clone, Copy, Debug, Default, PartialEq, Eq, Structural, PartialOrd, Ord, Hash)]
pub struct ImageType(pub u32);

impl ImageType {
    /// Wraps a raw value.
    pub fn from_raw(raw: u32) -> (r: Self)
        ensures
            r.0 == raw,
    {
        ImageType(raw)
    }

    /// The raw value.
    pub fn as_raw(self) -> (r: u32)
        ensures
            r == self.0,
    {
        self.0
    }
}

impl From<u32> for ImageType {
    fn from(value: u32) -> (r: Self) {
        ImageType(value)
    }
}

impl FromSpecImpl<u32> for ImageType {
    open spec fn obeys_from_spec() -> bool {
        true
    }

    open spec fn from_spec(v: u32) -> ImageType {
        ImageType(v)
    }
}

impl From<ImageType> for u32 {
    fn from(value: ImageType) -> (r: u32) {
        value.0
    }
}

impl FromSpecImpl<ImageType> for u32 {
    open spec fn obeys_from_spec() -> bool {
        true
    }

    open spec fn from_spec(v: ImageType) -> u32 {
        v.0
    }
}

/// An `MPSPurgeableState` raw value.
#[derive(Clone, Copy, Debug, Default, PartialEq, Eq, Structural, PartialOrd, Ord, Hash)]
pub struct PurgeableState(pub usize);

impl PurgeableState {
    /// Wraps a raw value.
    pub fn from_raw(raw: usize) -> (r: Self)
        ensures
            r.0 == raw,
    {
        PurgeableState(raw)
    }

    /// The raw value.
    pub fn as_raw(self) -> (r: usize)
        ensures
            r == self.0,
    {
        self.0
    }
}

impl From<usize> for PurgeableState {
    fn from(value: usize) -> (r: Self) {
        PurgeableState(value)
    }
}

impl FromSpecImpl<usize> for PurgeableState {
    open spec fn obeys_from_spec() -> bool {
        true
    }

    open spec fn from_spec(v: usize) -> PurgeableState {
        PurgeableState(v)
    }
}

impl From<PurgeableState> for usize {
    fn from(value: PurgeableState) -> (r: usize) {
        value.0
    }
}

impl FromSpecImpl<PurgeableState> for usize {
    open spec fn obeys_from_spec() -> bool {
        true
    }

    open spec fn from_spec(v: PurgeableState) -> usize {
        v.0
    }
}

} // verus!
