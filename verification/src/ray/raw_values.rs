//! Raw-value wrappers for ray-tracing enums.
use vstd::prelude::*;
use vstd::std_specs::convert::FromSpecImpl;

verus! {

/// An `MPSAccelerationStructureUsage` raw value.
#[derive(Clone, Copy, Debug, Default, PartialEq, Eq, Structural, PartialOrd, Ord, Hash)]
pub struct AccelerationStructureUsage(pub usize);

impl AccelerationStructureUsage {
    /// Wraps a raw value.
    pub fn from_raw(raw: usize) -> (r: Self)
        ensures
            r.0 == raw,
    {
        AccelerationStructureUsage(raw)
    }

    /// The raw value.
    pub fn as_raw(self) -> (r: usize)
        ensures
            r == self.0,
    {
        self.0
    }
}

impl From<usize> for AccelerationStructureUsage {
    fn from(value: usize) -> (r: Self) {
        AccelerationStructureUsage(value)
    }
}

impl FromSpecImpl<usize> for AccelerationStructureUsage {
    open spec fn obeys_from_spec() -> bool {
        true
    }

    open spec fn from_spec(v: usize) -> AccelerationStructureUsage {
        AccelerationStructureUsage(v)
    }
}

impl From<AccelerationStructureUsage> for usize {
    fn from(value: AccelerationStructureUsage) -> (r: usize) {
        value.0
    }
}

impl FromSpecImpl<AccelerationStructureUsage> for usize {
    open spec fn obeys_from_spec() -> bool {
        true
    }

    open spec fn from_spec(v: AccelerationStructureUsage) -> usize {
        v.0
    }
}

/// An `MPSRayMaskOptions` raw value.
#[derive(Clone, Copy, Debug, Default, PartialEq, Eq, Structural, PartialOrd, Ord, Hash)]
pub struct RayMaskOptions(pub usize);

impl RayMaskOptions {
    /// Wraps a raw value.
    pub fn from_raw(raw: usize) -> (r: Self)
        ensures
            r.0 == raw,
    {
        RayMaskOptions(raw)
    }

    /// The raw value.
    pub fn as_raw(self) -> (r: usize)
        ensures
            r == self.0,
    {
        self.0
    }
}

impl From<usize> for RayMaskOptions {
    fn from(value: usize) -> (r: Self) {
        RayMaskOptions(value)
    }
}

impl FromSpecImpl<usize> for RayMaskOptions {
    open spec fn obeys_from_spec() -> bool {
        true
    }

    open spec fn from_spec(v: usize) -> RayMaskOptions {
        RayMaskOptions(v)
    }
}

impl From<RayMaskOptions> for usize {
    fn from(value: RayMaskOptions) -> (r: usize) {
        value.0
    }
}

impl FromSpecImpl<RayMaskOptions> for usize {
    open spec fn obeys_from_spec() -> bool {
        true
    }

    open spec fn from_spec(v: RayMaskOptions) -> usize {
        v.0
    }
}

/// An `MPSTemporalWeighting` raw value.
#[derive(Clone, Copy, Debug, Default, PartialEq, Eq, Structural, PartialOrd, Ord, Hash)]
pub struct TemporalWeighting(pub usize);

impl TemporalWeighting {
    /// Wraps a raw value.
    pub fn from_raw(raw: usize) -> (r: Self)
        ensures
            r.0 == raw,
    {
        TemporalWeighting(raw)
    }

    /// The raw value.
    pub fn as_raw(self) -> (r: usize)
        ensures
            r == self.0,
    {
        self.0
    }
}

impl From<usize> for TemporalWeighting {
    fn from(value: usize) -> (r: Self) {
        TemporalWeighting(value)
    }
}

impl FromSpecImpl<usize> for TemporalWeighting {
    open spec fn obeys_from_spec() -> bool {
        true
    }

    open spec fn from_spec(v: usize) -> TemporalWeighting {
        TemporalWeighting(v)
    }
}

impl From<TemporalWeighting> for usize {
    fn from(value: TemporalWeighting) -> (r: usize) {
        value.0
    }
}

impl FromSpecImpl<TemporalWeighting> for usize {
    open spec fn obeys_from_spec() -> bool {
        true
    }

    open spec fn from_spec(v: TemporalWeighting) -> usize {
        v.0
    }
}

/// An `MPSTransformType` raw value.
#[derive(Clone, Copy, Debug, Default, PartialEq, Eq, Structural, PartialOrd, Ord, Hash)]
pub struct TransformType(pub usize);

impl TransformType {
    /// Wraps a raw value.
    pub fn from_raw(raw: usize) -> (r: Self)
        ensures
            r.0 == raw,
    {
        TransformType(raw)
    }

    /// The raw value.
    pub fn as_raw(self) -> (r: usize)
        ensures
            r == self.0,
    {
        self.0
    }
}

impl From<usize> for TransformType {
    fn from(value: usize) -> (r: Self) {
        TransformType(value)
    }
}

impl FromSpecImpl<usize> for TransformType {
    open spec fn obeys_from_spec() -> bool {
        true
    }

    open spec fn from_spec(v: usize) -> TransformType {
        TransformType(v)
    }
}

impl From<TransformType> for usize {
    fn from(value: TransformType) -> (r: usize) {
        value.0
    }
}

impl FromSpecImpl<TransformType> for usize {
    open spec fn obeys_from_spec() -> bool {
        true
    }

    open spec fn from_spec(v: TransformType) -> usize {
        v.0
    }
}

/// An `MPSAccelerationStructureStatus` raw value.
#[derive(Clone, Copy, Debug, Default, PartialEq, Eq, Structural, PartialOrd, Ord, Hash)]
pub struct AccelerationStructureStatus(pub usize);

impl AccelerationStructureStatus {
    /// Wraps a raw value.
    pub fn from_raw(raw: usize) -> (r: Self)
        ensures
            r.0 == raw,
    {
        AccelerationStructureStatus(raw)
    }

    /// The raw value.
    pub fn as_raw(self) -> (r: usize)
        ensures
            r == self.0,
    {
        self.0
    }
}

impl From<usize> for AccelerationStructureStatus {
    fn from(value: usize) -> (r: Self) {
        AccelerationStructureStatus(value)
    }
}

impl FromSpecImpl<usize> for AccelerationStructureStatus {
    open spec fn obeys_from_spec() -> bool {
        true
    }

    open spec fn from_spec(v: usize) -> AccelerationStructureStatus {
        AccelerationStructureStatus(v)
    }
}

impl From<AccelerationStructureStatus> for usize {
    fn from(value: AccelerationStructureStatus) -> (r: usize) {
        value.0
    }
}

impl FromSpecImpl<AccelerationStructureStatus> for usize {
    open spec fn obeys_from_spec() -> bool {
        true
    }

    open spec fn from_spec(v: AccelerationStructureStatus) -> usize {
        v.0
    }
}

/// An `MPSBoundingBoxIntersectionTestType` raw value.
#[derive(Clone, Copy, Debug, Default, PartialEq, Eq, Structural, PartialOrd, Ord, Hash)]
pub struct BoundingBoxIntersectionTestType(pub usize);

impl BoundingBoxIntersectionTestType {
    /// Wraps a raw value.
    pub fn from_raw(raw: usize) -> (r: Self)
        ensures
            r.0 == raw,
    {
        BoundingBoxIntersectionTestType(raw)
    }

    /// The raw value.
    pub fn as_raw(self) -> (r: usize)
        ensures
            r == self.0,
    {
        self.0
    }
}

impl From<usize> for BoundingBoxIntersectionTestType {
    fn from(value: usize) -> (r: Self) {
        BoundingBoxIntersectionTestType(value)
    }
}

impl FromSpecImpl<usize> for BoundingBoxIntersectionTestType {
    open spec fn obeys_from_spec() -> bool {
        true
    }

    open spec fn from_spec(v: usize) -> BoundingBoxIntersectionTestType {
        BoundingBoxIntersectionTestType(v)
    }
}

impl From<BoundingBoxIntersectionTestType> for usize {
    fn from(value: BoundingBoxIntersectionTestType) -> (r: usize) {
        value.0
    }
}

impl FromSpecImpl<BoundingBoxIntersectionTestType> for usize {
    open spec fn obeys_from_spec() -> bool {
        true
    }

    open spec fn from_spec(v: BoundingBoxIntersectionTestType) -> usize {
        v.0
    }
}

/// An `MPSPolygonType` raw value.
#[derive(Clone, Copy, Debug, Default, PartialEq, Eq, Structural, PartialOrd, Ord, Hash)]
pub struct PolygonType(pub usize);

impl PolygonType {
    /// Wraps a raw value.
    pub fn from_raw(raw: usize) -> (r: Self)
        ensures
            r.0 == raw,
    {
        PolygonType(raw)
    }

    /// The raw value.
    pub fn as_raw(self) -> (r: usize)
        ensures
            r == self.0,
    {
        self.0
    }
}

impl From<usize> for PolygonType {
    fn from(value: usize) -> (r: Self) {
        PolygonType(value)
    }
}

impl FromSpecImpl<usize> for PolygonType {
    open spec fn obeys_from_spec() -> bool {
        true
    }

    open spec fn from_spec(v: usize) -> PolygonType {
        PolygonType(v)
    }
}

impl From<PolygonType> for usize {
    fn from(value: PolygonType) -> (r: usize) {
        value.0
    }
}

impl FromSpecImpl<PolygonType> for usize {
    open spec fn obeys_from_spec() -> bool {
        true
    }

    open spec fn from_spec(v: PolygonType) -> usize {
        v.0
    }
}

/// An `MPSRayMaskOperator` raw value.
#[derive(Clone, Copy, Debug, Default, PartialEq, Eq, Structural, PartialOrd, Ord, Hash)]
pub struct RayMaskOperator(pub usize);

impl RayMaskOperator {
    /// Wraps a raw value.
    pub fn from_raw(raw: usize) -> (r: Self)
        ensures
            r.0 == raw,
    {
        RayMaskOperator(raw)
    }

    /// The raw value.
    pub fn as_raw(self) -> (r: usize)
        ensures
            r == self.0,
    {
        self.0
    }
}

impl From<usize> for RayMaskOperator {
    fn from(value: usize) -> (r: Self) {
        RayMaskOperator(value)
    }
}

impl FromSpecImpl<usize> for RayMaskOperator {
    open spec fn obeys_from_spec() -> bool {
        true
    }

    open spec fn from_spec(v: usize) -> RayMaskOperator {
        RayMaskOperator(v)
    }
}

impl From<RayMaskOperator> for usize {
    fn from(value: RayMaskOperator) -> (r: usize) {
        value.0
    }
}

impl FromSpecImpl<RayMaskOperator> for usize {
    open spec fn obeys_from_spec() -> bool {
        true
    }

    open spec fn from_spec(v: RayMaskOperator) -> usize {
        v.0
    }
}

/// An `MPSTriangleIntersectionTestType` raw value.
#[derive(Clone, Copy, Debug, Default, PartialEq, Eq, Structural, PartialOrd, Ord, Hash)]
pub struct TriangleIntersectionTestType(pub usize);

impl TriangleIntersectionTestType {
    /// Wraps a raw value.
    pub fn from_raw(raw: usize) -> (r: Self)
        ensures
            r.0 == raw,
    {
        TriangleIntersectionTestType(raw)
    }

    /// The raw value.
    pub fn as_raw(self) -> (r: usize)
        ensures
            r == self.0,
    {
        self.0
    }
}

impl From<usize> for TriangleIntersectionTestType {
    fn from(value: usize) -> (r: Self) {
        TriangleIntersectionTestType(value)
    }
}

impl FromSpecImpl<usize> for TriangleIntersectionTestType {
    open spec fn obeys_from_spec() -> bool {
        true
    }

    open spec fn from_spec(v: usize) -> TriangleIntersectionTestType {
        TriangleIntersectionTestType(v)
    }
}

impl From<TriangleIntersectionTestType> for usize {
    fn from(value: TriangleIntersectionTestType) -> (r: usize) {
        value.0
    }
}

impl FromSpecImpl<TriangleIntersectionTestType> for usize {
    open spec fn obeys_from_spec() -> bool {
        true
    }

    open spec fn from_spec(v: TriangleIntersectionTestType) -> usize {
        v.0
    }
}

} // verus!
