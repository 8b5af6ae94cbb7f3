//! Packing of structured values into byte buffers that follow the two
//! standardized GPU memory-layout conventions (std140 and std430) for
//! uniform and storage buffers.
//!
//! The heart of the crate is a growable byte accumulator that owns all
//! padding and offset arithmetic; two thin facades select which
//! array-alignment rule applies.

pub mod alignment;
pub mod buffer;
pub mod dyn_array;
pub mod matrix;
pub mod scalar;
pub mod std140;
pub mod std430;
pub mod vector;

pub use alignment::{pad_len, round_up, zeros, padded_to};
pub use buffer::{AsGpuBytes, GpuBytes, Layout};
pub use std140::{AsStd140, Std140Bytes};
pub use std430::{AsStd430, Std430Bytes};
pub use dyn_array::{DynArray, Std140ArrayElement, Std430ArrayElement};
pub use matrix::{Mat3, Mat4};
pub use vector::{IVec2, IVec3, IVec4, UVec2, UVec3, UVec4};
