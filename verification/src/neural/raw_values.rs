//! Raw-value wrappers for neural-network enums.
use vstd::prelude::*;
use vstd::std_specs::convert::FromSpecImpl;

verus! {

/// An `MPSCNNBatchNormalizationFlags` raw value.
#[derive(Clone, Copy, Debug, Default, PartialEq, Eq, Structural, PartialOrd, Ord, Hash)]
pub struct CnnBatchNormalizationFlags(pub usize);

impl CnnBatchNormalizationFlags {
    /// Wraps a raw value.
    pub fn from_raw(raw: usize) -> (r: Self)
        ensures
            r.0 == raw,
    {
        CnnBatchNormalizationFlags(raw)
    }

    /// The raw value.
    pub fn as_raw(self) -> (r: usize)
        ensures
            r == self.0,
    {
        self.0
    }
}

impl From<usize> for CnnBatchNormalizationFlags {
    fn from(value: usize) -> (r: Self) {
        CnnBatchNormalizationFlags(value)
    }
}

impl FromSpecImpl<usize> for CnnBatchNormalizationFlags {
    open spec fn obeys_from_spec() -> bool {
        true
    }

    open spec fn from_spec(v: usize) -> CnnBatchNormalizationFlags {
        CnnBatchNormalizationFlags(v)
    }
}

impl From<CnnBatchNormalizationFlags> for usize {
    fn from(value: CnnBatchNormalizationFlags) -> (r: usize) {
        value.0
    }
}

impl FromSpecImpl<CnnBatchNormalizationFlags> for usize {
    open spec fn obeys_from_spec() -> bool {
        true
    }

    open spec fn from_spec(v: CnnBatchNormalizationFlags) -> usize {
        v.0
    }
}

/// An `MPSCNNConvolutionGradientOption` raw value.
#[derive(Clone, Copy, Debug, Default, PartialEq, Eq, Structural, PartialOrd, Ord, Hash)]
pub struct CnnConvolutionGradientOption(pub usize);

impl CnnConvolutionGradientOption {
    /// Wraps a raw value.
    pub fn from_raw(raw: usize) -> (r: Self)
        ensures
            r.0 == raw,
    {
        CnnConvolutionGradientOption(raw)
    }

    /// The raw value.
    pub fn as_raw(self) -> (r: usize)
        ensures
            r == self.0,
    {
        self.0
    }
}

impl From<usize> for CnnConvolutionGradientOption {
    fn from(value: usize) -> (r: Self) {
        CnnConvolutionGradientOption(value)
    }
}

impl FromSpecImpl<usize> for CnnConvolutionGradientOption {
    open spec fn obeys_from_spec() -> bool {
        true
    }

    open spec fn from_spec(v: usize) -> CnnConvolutionGradientOption {
        CnnConvolutionGradientOption(v)
    }
}

impl From<CnnConvolutionGradientOption> for usize {
    fn from(value: CnnConvolutionGradientOption) -> (r: usize) {
        value.0
    }
}

impl FromSpecImpl<CnnConvolutionGradientOption> for usize {
    open spec fn obeys_from_spec() -> bool {
        true
    }

    open spec fn from_spec(v: CnnConvolutionGradientOption) -> usize {
        v.0
    }
}

/// An `MPSNNComparisonType` raw value.
#[derive(Clone, Copy, Debug, Default, PartialEq, Eq, Structural, PartialOrd, Ord, Hash)]
pub struct NNComparisonType(pub usize);

impl NNComparisonType {
    /// Wraps a raw value.
    pub fn from_raw(raw: usize) -> (r: Self)
        ensures
            r.0 == raw,
    {
        NNComparisonType(raw)
    }

    /// The raw value.
    pub fn as_raw(self) -> (r: usize)
        ensures
            r == self.0,
    {
        self.0
    }
}

impl From<usize> for NNComparisonType {
    fn from(value: usize) -> (r: Self) {
        NNComparisonType(value)
    }
}

impl FromSpecImpl<usize> for NNComparisonType {
    open spec fn obeys_from_spec() -> bool {
        true
    }

    open spec fn from_spec(v: usize) -> NNComparisonType {
        NNComparisonType(v)
    }
}

impl From<NNComparisonType> for usize {
    fn from(value: NNComparisonType) -> (r: usize) {
        value.0
    }
}

impl FromSpecImpl<NNComparisonType> for usize {
    open spec fn obeys_from_spec() -> bool {
        true
    }

    open spec fn from_spec(v: NNComparisonType) -> usize {
        v.0
    }
}

/// An `MPSNNPaddingMethod` raw value.
#[derive(Clone, Copy, Debug, Default, PartialEq, Eq, Structural, PartialOrd, Ord, Hash)]
pub struct NNPaddingMethod(pub usize);

impl NNPaddingMethod {
    /// Wraps a raw value.
    pub fn from_raw(raw: usize) -> (r: Self)
        ensures
            r.0 == raw,
    {
        NNPaddingMethod(raw)
    }

    /// The raw value.
    pub fn as_raw(self) -> (r: usize)
        ensures
            r == self.0,
    {
        self.0
    }
}

impl From<usize> for NNPaddingMethod {
    fn from(value: usize) -> (r: Self) {
        NNPaddingMethod(value)
    }
}

impl FromSpecImpl<usize> for NNPaddingMethod {
    open spec fn obeys_from_spec() -> bool {
        true
    }

    open spec fn from_spec(v: usize) -> NNPaddingMethod {
        NNPaddingMethod(v)
    }
}

impl From<NNPaddingMethod> for usize {
    fn from(value: NNPaddingMethod) -> (r: usize) {
        value.0
    }
}

impl FromSpecImpl<NNPaddingMethod> for usize {
    open spec fn obeys_from_spec() -> bool {
        true
    }

    open spec fn from_spec(v: NNPaddingMethod) -> usize {
        v.0
    }
}

/// An `MPSNNTrainingStyle` raw value.
#[derive(Clone, Copy, Debug, Default, PartialEq, Eq, Structural, PartialOrd, Ord, Hash)]
pub struct NNTrainingStyle(pub usize);

impl NNTrainingStyle {
    /// Wraps a raw value.
    pub fn from_raw(raw: usize) -> (r: Self)
        ensures
            r.0 == raw,
    {
        NNTrainingStyle(raw)
    }

    /// The raw value.
    pub fn as_raw(self) -> (r: usize)
        ensures
            r == self.0,
    {
        self.0
    }
}

impl From<usize> for NNTrainingStyle {
    fn from(value: usize) -> (r: Self) {
        NNTrainingStyle(value)
    }
}

impl FromSpecImpl<usize> for NNTrainingStyle {
    open spec fn obeys_from_spec() -> bool {
        true
    }

    open spec fn from_spec(v: usize) -> NNTrainingStyle {
        NNTrainingStyle(v)
    }
}

impl From<NNTrainingStyle> for usize {
    fn from(value: NNTrainingStyle) -> (r: usize) {
        value.0
    }
}

impl FromSpecImpl<NNTrainingStyle> for usize {
    open spec fn obeys_from_spec() -> bool {
        true
    }

    open spec fn from_spec(v: NNTrainingStyle) -> usize {
        v.0
    }
}

/// An `MPSCNNBinaryConvolutionFlags` raw value.
#[derive(Clone, Copy, Debug, Default, PartialEq, Eq, Structural, PartialOrd, Ord, Hash)]
pub struct CnnBinaryConvolutionFlags(pub usize);

impl CnnBinaryConvolutionFlags {
    /// Wraps a raw value.
    pub fn from_raw(raw: usize) -> (r: Self)
        ensures
            r.0 == raw,
    {
        CnnBinaryConvolutionFlags(raw)
    }

    /// The raw value.
    pub fn as_raw(self) -> (r: usize)
        ensures
            r == self.0,
    {
        self.0
    }
}

impl From<usize> for CnnBinaryConvolutionFlags {
    fn from(value: usize) -> (r: Self) {
        CnnBinaryConvolutionFlags(value)
    }
}

impl FromSpecImpl<usize> for CnnBinaryConvolutionFlags {
    open spec fn obeys_from_spec() -> bool {
        true
    }

    open spec fn from_spec(v: usize) -> CnnBinaryConvolutionFlags {
        CnnBinaryConvolutionFlags(v)
    }
}

impl From<CnnBinaryConvolutionFlags> for usize {
    fn from(value: CnnBinaryConvolutionFlags) -> (r: usize) {
        value.0
    }
}

impl FromSpecImpl<CnnBinaryConvolutionFlags> for usize {
    open spec fn obeys_from_spec() -> bool {
        true
    }

    open spec fn from_spec(v: CnnBinaryConvolutionFlags) -> usize {
        v.0
    }
}

/// An `MPSCNNBinaryConvolutionType` raw value.
#[derive(Clone, Copy, Debug, Default, PartialEq, Eq, Structural, PartialOrd, Ord, Hash)]
pub struct CnnBinaryConvolutionType(pub usize);

impl CnnBinaryConvolutionType {
    /// Wraps a raw value.
    pub fn from_raw(raw: usize) -> (r: Self)
        ensures
            r.0 == raw,
    {
        CnnBinaryConvolutionType(raw)
    }

    /// The raw value.
    pub fn as_raw(self) -> (r: usize)
        ensures
            r == self.0,
    {
        self.0
    }
}

impl From<usize> for CnnBinaryConvolutionType {
    fn from(value: usize) -> (r: Self) {
        CnnBinaryConvolutionType(value)
    }
}

impl FromSpecImpl<usize> for CnnBinaryConvolutionType {
    open spec fn obeys_from_spec() -> bool {
        true
    }

    open spec fn from_spec(v: usize) -> CnnBinaryConvolutionType {
        CnnBinaryConvolutionType(v)
    }
}

impl From<CnnBinaryConvolutionType> for usize {
    fn from(value: CnnBinaryConvolutionType) -> (r: usize) {
        value.0
    }
}

impl FromSpecImpl<CnnBinaryConvolutionType> for usize {
    open spec fn obeys_from_spec() -> bool {
        true
    }

    open spec fn from_spec(v: CnnBinaryConvolutionType) -> usize {
        v.0
    }
}

/// An `MPSCNNLossType` raw value.
#[derive(Clone, Copy, Debug, Default, PartialEq, Eq, Structural, PartialOrd, Ord, Hash)]
pub struct CnnLossType(pub usize);

impl CnnLossType {
    /// Wraps a raw value.
    pub fn from_raw(raw: usize) -> (r: Self)
        ensures
            r.0 == raw,
    {
        CnnLossType(raw)
    }

    /// The raw value.
    pub fn as_raw(self) -> (r: usize)
        ensures
            r == self.0,
    {
        self.0
    }
}

impl From<usize> for CnnLossType {
    fn from(value: usize) -> (r: Self) {
        CnnLossType(value)
    }
}

impl FromSpecImpl<usize> for CnnLossType {
    open spec fn obeys_from_spec() -> bool {
        true
    }

    open spec fn from_spec(v: usize) -> CnnLossType {
        CnnLossType(v)
    }
}

impl From<CnnLossType> for usize {
    fn from(value: CnnLossType) -> (r: usize) {
        value.0
    }
}

impl FromSpecImpl<CnnLossType> for usize {
    open spec fn obeys_from_spec() -> bool {
        true
    }

    open spec fn from_spec(v: CnnLossType) -> usize {
        v.0
    }
}

/// An `MPSCNNNeuronType` raw value.
#[derive(Clone, Copy, Debug, Default, PartialEq, Eq, Structural, PartialOrd, Ord, Hash)]
pub struct CnnNeuronType(pub usize);

impl CnnNeuronType {
    /// Wraps a raw value.
    pub fn from_raw(raw: usize) -> (r: Self)
        ensures
            r.0 == raw,
    {
        CnnNeuronType(raw)
    }

    /// The raw value.
    pub fn as_raw(self) -> (r: usize)
        ensures
            r == self.0,
    {
        self.0
    }
}

impl From<usize> for CnnNeuronType {
    fn from(value: usize) -> (r: Self) {
        CnnNeuronType(value)
    }
}

impl FromSpecImpl<usize> for CnnNeuronType {
    open spec fn obeys_from_spec() -> bool {
        true
    }

    open spec fn from_spec(v: usize) -> CnnNeuronType {
        CnnNeuronType(v)
    }
}

impl From<CnnNeuronType> for usize {
    fn from(value: CnnNeuronType) -> (r: usize) {
        value.0
    }
}

impl FromSpecImpl<CnnNeuronType> for usize {
    open spec fn obeys_from_spec() -> bool {
        true
    }

    open spec fn from_spec(v: CnnNeuronType) -> usize {
        v.0
    }
}

/// An `MPSCNNReductionType` raw value.
#[derive(Clone, Copy, Debug, Default, PartialEq, Eq, Structural, PartialOrd, Ord, Hash)]
pub struct CnnReductionType(pub usize);

impl CnnReductionType {
    /// Wraps a raw value.
    pub fn from_raw(raw: usize) -> (r: Self)
        ensures
            r.0 == raw,
    {
        CnnReductionType(raw)
    }

    /// The raw value.
    pub fn as_raw(self) -> (r: usize)
        ensures
            r == self.0,
    {
        self.0
    }
}

impl From<usize> for CnnReductionType {
    fn from(value: usize) -> (r: Self) {
        CnnReductionType(value)
    }
}

impl FromSpecImpl<usize> for CnnReductionType {
    open spec fn obeys_from_spec() -> bool {
        true
    }

    open spec fn from_spec(v: usize) -> CnnReductionType {
        CnnReductionType(v)
    }
}

impl From<CnnReductionType> for usize {
    fn from(value: CnnReductionType) -> (r: usize) {
        value.0
    }
}

impl FromSpecImpl<CnnReductionType> for usize {
    open spec fn obeys_from_spec() -> bool {
        true
    }

    open spec fn from_spec(v: CnnReductionType) -> usize {
        v.0
    }
}

/// An `MPSCNNWeightsQuantizationType` raw value.
#[derive(Clone, Copy, Debug, Default, PartialEq, Eq, Structural, PartialOrd, Ord, Hash)]
pub struct CnnWeightsQuantizationType(pub usize);

impl CnnWeightsQuantizationType {
    /// Wraps a raw value.
    pub fn from_raw(raw: usize) -> (r: Self)
        ensures
            r.0 == raw,
    {
        CnnWeightsQuantizationType(raw)
    }

    /// The raw value.
    pub fn as_raw(self) -> (r: usize)
        ensures
            r == self.0,
    {
        self.0
    }
}

impl From<usize> for CnnWeightsQuantizationType {
    fn from(value: usize) -> (r: Self) {
        CnnWeightsQuantizationType(value)
    }
}

impl FromSpecImpl<usize> for CnnWeightsQuantizationType {
    open spec fn obeys_from_spec() -> bool {
        true
    }

    open spec fn from_spec(v: usize) -> CnnWeightsQuantizationType {
        CnnWeightsQuantizationType(v)
    }
}

impl From<CnnWeightsQuantizationType> for usize {
    fn from(value: CnnWeightsQuantizationType) -> (r: usize) {
        value.0
    }
}

impl FromSpecImpl<CnnWeightsQuantizationType> for usize {
    open spec fn obeys_from_spec() -> bool {
        true
    }

    open spec fn from_spec(v: CnnWeightsQuantizationType) -> usize {
        v.0
    }
}

/// An `MPSRNNMatrixId` raw value.
#[derive(Clone, Copy, Debug, Default, PartialEq, Eq, Structural, PartialOrd, Ord, Hash)]
pub struct RnnMatrixId(pub usize);

impl RnnMatrixId {
    /// Wraps a raw value.
    pub fn from_raw(raw: usize) -> (r: Self)
        ensures
            r.0 == raw,
    {
        RnnMatrixId(raw)
    }

    /// The raw value.
    pub fn as_raw(self) -> (r: usize)
        ensures
            r == self.0,
    {
        self.0
    }
}

impl From<usize> for RnnMatrixId {
    fn from(value: usize) -> (r: Self) {
        RnnMatrixId(value)
    }
}

impl FromSpecImpl<usize> for RnnMatrixId {
    open spec fn obeys_from_spec() -> bool {
        true
    }

    open spec fn from_spec(v: usize) -> RnnMatrixId {
        RnnMatrixId(v)
    }
}

impl From<RnnMatrixId> for usize {
    fn from(value: RnnMatrixId) -> (r: usize) {
        value.0
    }
}

impl FromSpecImpl<RnnMatrixId> for usize {
    open spec fn obeys_from_spec() -> bool {
        true
    }

    open spec fn from_spec(v: RnnMatrixId) -> usize {
        v.0
    }
}

} // verus!
