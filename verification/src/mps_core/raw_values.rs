//! Raw-value wrappers for core enums.
use vstd::prelude::*;
use vstd::std_specs::convert::FromSpecImpl;

verus! {

/// An `MPSAliasingStrategy` raw value.
#[derive(Clone, Copy, Debug, Default, PartialEq, Eq, Structural, PartialOrd, Ord, Hash)]
pub struct AliasingStrategy(pub usize);

impl AliasingStrategy {
    /// Wraps a raw value.
    pub fn from_raw(raw: usize) -> (r: Self)
        ensures
            r.0 == raw,
    {
        AliasingStrategy(raw)
    }

    /// The raw value.
    pub fn as_raw(self) -> (r: usize)
        ensures
            r == self.0,
    {
        self.0
    }
}

impl From<usize> for AliasingStrategy {
    fn from(value: usize) -> (r: Self) {
        AliasingStrategy(value)
    }
}

impl FromSpecImpl<usize> for AliasingStrategy {
    open spec fn obeys_from_spec() -> bool {
        true
    }

    open spec fn from_spec(v: usize) -> AliasingStrategy {
        AliasingStrategy(v)
    }
}

impl From<AliasingStrategy> for usize {
    fn from(value: AliasingStrategy) -> (r: usize) {
        value.0
    }
}

impl FromSpecImpl<AliasingStrategy> for usize {
    open spec fn obeys_from_spec() -> bool {
        true
    }

    open spec fn from_spec(v: AliasingStrategy) -> usize {
        v.0
    }
}

/// An `MPSCustomKernelIndex` raw value.
#[derive(Clone, Copy, Debug, Default, PartialEq, Eq, Structural, PartialOrd, Ord, Hash)]
pub struct CustomKernelIndex(pub usize);

impl CustomKernelIndex {
    /// Wraps a raw value.
    pub fn from_raw(raw: usize) -> (r: Self)
        ensures
            r.0 == raw,
    {
        CustomKernelIndex(raw)
    }

    /// The raw value.
    pub fn as_raw(self) -> (r: usize)
        ensures
            r == self.0,
    {
        self.0
    }
}

impl From<usize> for CustomKernelIndex {
    fn from(value: usize) -> (r: Self) {
        CustomKernelIndex(value)
    }
}

impl FromSpecImpl<usize> for CustomKernelIndex {
    open spec fn obeys_from_spec() -> bool {
        true
    }

    open spec fn from_spec(v: usize) -> CustomKernelIndex {
        CustomKernelIndex(v)
    }
}

impl From<CustomKernelIndex> for usize {
    fn from(value: CustomKernelIndex) -> (r: usize) {
        value.0
    }
}

impl FromSpecImpl<CustomKernelIndex> for usize {
    open spec fn obeys_from_spec() -> bool {
        true
    }

    open spec fn from_spec(v: CustomKernelIndex) -> usize {
        v.0
    }
}

/// An `MPSDeviceCapsValues` raw value.
#[derive(Clone, Copy, Debug, Default, PartialEq, Eq, Structural, PartialOrd, Ord, Hash)]
pub struct DeviceCapsValues(pub usize);

impl DeviceCapsValues {
    /// Wraps a raw value.
    pub fn from_raw(raw: usize) -> (r: Self)
        ensures
            r.0 == raw,
    {
        DeviceCapsValues(raw)
    }

    /// The raw value.
    pub fn as_raw(self) -> (r: usize)
        ensures
            r == self.0,
    {
        self.0
    }
}

impl From<usize> for DeviceCapsValues {
    fn from(value: usize) -> (r: Self) {
        DeviceCapsValues(value)
    }
}

impl FromSpecImpl<usize> for DeviceCapsValues {
    open spec fn obeys_from_spec() -> bool {
        true
    }

    open spec fn from_spec(v: usize) -> DeviceCapsValues {
        DeviceCapsValues(v)
    }
}

impl From<DeviceCapsValues> for usize {
    fn from(value: DeviceCapsValues) -> (r: usize) {
        value.0
    }
}

impl FromSpecImpl<DeviceCapsValues> for usize {
    open spec fn obeys_from_spec() -> bool {
        true
    }

    open spec fn from_spec(v: DeviceCapsValues) -> usize {
        v.0
    }
}

/// An `MPSFloatDataTypeBit` raw value.
#[derive(Clone, Copy, Debug, Default, PartialEq, Eq, Structural, PartialOrd, Ord, Hash)]
pub struct FloatDataTypeBit(pub usize);

impl FloatDataTypeBit {
    /// Wraps a raw value.
    pub fn from_raw(raw: usize) -> (r: Self)
        ensures
            r.0 == raw,
    {
        FloatDataTypeBit(raw)
    }

    /// The raw value.
    pub fn as_raw(self) -> (r: usize)
        ensures
            r == self.0,
    {
        self.0
    }
}

impl From<usize> for FloatDataTypeBit {
    fn from(value: usize) -> (r: Self) {
        FloatDataTypeBit(value)
    }
}

impl FromSpecImpl<usize> for FloatDataTypeBit {
    open spec fn obeys_from_spec() -> bool {
        true
    }

    open spec fn from_spec(v: usize) -> FloatDataTypeBit {
        FloatDataTypeBit(v)
    }
}

impl From<FloatDataTypeBit> for usize {
    fn from(value: FloatDataTypeBit) -> (r: usize) {
        value.0
    }
}

impl FromSpecImpl<FloatDataTypeBit> for usize {
    open spec fn obeys_from_spec() -> bool {
        true
    }

    open spec fn from_spec(v: FloatDataTypeBit) -> usize {
        v.0
    }
}

/// An `MPSFloatDataTypeShift` raw value.
#[derive(Clone, Copy, Debug, Default, PartialEq, Eq, Structural, PartialOrd, Ord, Hash)]
pub struct FloatDataTypeShift(pub usize);

impl FloatDataTypeShift {
    /// Wraps a raw value.
    pub fn from_raw(raw: usize) -> (r: Self)
        ensures
            r.0 == raw,
    {
        FloatDataTypeShift(raw)
    }

    /// The raw value.
    pub fn as_raw(self) -> (r: usize)
        ensures
            r == self.0,
    {
        self.0
    }
}

impl From<usize> for FloatDataTypeShift {
    fn from(value: usize) -> (r: Self) {
        FloatDataTypeShift(value)
    }
}

impl FromSpecImpl<usize> for FloatDataTypeShift {
    open spec fn obeys_from_spec() -> bool {
        true
    }

    open spec fn from_spec(v: usize) -> FloatDataTypeShift {
        FloatDataTypeShift(v)
    }
}

impl From<FloatDataTypeShift> for usize {
    fn from(value: FloatDataTypeShift) -> (r: usize) {
        value.0
    }
}

impl FromSpecImpl<FloatDataTypeShift> for usize {
    open spec fn obeys_from_spec() -> bool {
        true
    }

    open spec fn from_spec(v: FloatDataTypeShift) -> usize {
        v.0
    }
}

} // verus!
