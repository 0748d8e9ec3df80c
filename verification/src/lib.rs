//! Checked geometry, layout and operand rules for Metal Performance Shaders
//! kernels: the decisions that must hold before a buffer, image or kernel is
//! handed to the GPU, each stated as a contract and proved.
//!
//! - [`matrix`]: element sizes and the stride rules and storage extents of
//!   matrix and vector descriptors; the operand shapes of a GEMM.
//! - [`ndarray`]: NDArray shapes, the row-padded storage extent, reshapes and
//!   batched matrix products.
//! - [`image`]: image descriptors, regions and CPU transfer sizes.
//! - [`filter_rules`] and [`filters`]: which textures each image kernel group
//!   takes, kernel sizes, and histogram buffers.
//! - [`ray`]: the vertex, index, ray and intersection buffer rules, and the
//!   record of the geometry an acceleration structure was rebuilt from.
//! - [`neural`]: convolution weights, groups and operand checks.
//! - [`state`]: read-count and synchronization rules of `MPSState`.

pub mod error;
pub mod filter_rules;
pub mod filters;
pub mod image;
pub mod matrix;
pub mod metal;
pub mod mps_core;
pub mod ndarray;
pub mod neural;
pub mod ray;
pub mod state;

pub use crate::error::{CommandBufferFault, Error, Result};
pub use crate::image::{
    feature_channel_format, image_edge_mode, image_layout, kernel_options, ImageDescriptor,
    ImageReadWriteParams, ImageRegion,
};
pub use crate::matrix::{data_type, data_type_size, MatrixDescriptor, VectorDescriptor};
pub use crate::mps_core::device_options;
pub use crate::ndarray::NDArrayDescriptor;
pub use crate::neural::{
    cnn_accumulator_precision_option, cnn_convolution_flags, cnn_convolution_weights_layout,
    nn_regularization_type, rnn_bidirectional_combine_mode, rnn_sequence_direction,
};
pub use crate::ray::{
    acceleration_structure_status, acceleration_structure_usage, cull_mode, intersection_data_type,
    intersection_type, polygon_type, ray_data_type, winding,
};
pub use crate::state::{state_resource_type, StateTextureInfo};
