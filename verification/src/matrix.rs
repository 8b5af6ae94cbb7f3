//! Matrix encodings: 3×3 and 4×4 matrices of 32-bit words, stored and
//! encoded column-major.
//!
//! A matrix encodes as its column vectors written in order, each column
//! padded to the 16-byte boundary a 3- or 4-component vector demands, so a
//! matrix always occupies a multiple of 16 bytes per column. Every column
//! is written exactly once, first to last.
//!
//! For floating-point matrices the caller passes each component's bit
//! pattern as a word.

use vstd::prelude::*;
use vstd::bytes::lemma_auto_spec_u32_to_from_le_bytes;
use crate::alignment::zeros;
use crate::dyn_array::{Std140ArrayElement, Std430ArrayElement};
use crate::std140::{AsStd140, Std140Bytes};
use crate::std430::{AsStd430, Std430Bytes};
use crate::vector::{uvec3_bytes, uvec4_bytes, UVec3, UVec4};

verus! {

/// A 3×3 matrix of unsigned 32-bit words, as three column vectors.
#[derive(Clone, Copy, PartialEq, Eq, Structural, Debug)]
pub struct Mat3 {
    pub x_axis: UVec3,
    pub y_axis: UVec3,
    pub z_axis: UVec3,
}

/// A 4×4 matrix of unsigned 32-bit words, as four column vectors.
#[derive(Clone, Copy, PartialEq, Eq, Structural, Debug)]
pub struct Mat4 {
    pub x_axis: UVec4,
    pub y_axis: UVec4,
    pub z_axis: UVec4,
    pub w_axis: UVec4,
}

/// A 3×3 matrix's encoding: three 12-byte columns, each padded out to the
/// 16-byte column boundary before the next column starts.
pub open spec fn mat3_bytes(m: Mat3) -> Seq<u8> {
    uvec3_bytes(m.x_axis.x, m.x_axis.y, m.x_axis.z) + zeros(4) + uvec3_bytes(
        m.y_axis.x,
        m.y_axis.y,
        m.y_axis.z,
    ) + zeros(4) + uvec3_bytes(m.z_axis.x, m.z_axis.y, m.z_axis.z)
}

/// A 4×4 matrix's encoding: four 16-byte columns back to back.
pub open spec fn mat4_bytes(m: Mat4) -> Seq<u8> {
    uvec4_bytes(m.x_axis.x, m.x_axis.y, m.x_axis.z, m.x_axis.w) + uvec4_bytes(
        m.y_axis.x,
        m.y_axis.y,
        m.y_axis.z,
        m.y_axis.w,
    ) + uvec4_bytes(m.z_axis.x, m.z_axis.y, m.z_axis.z, m.z_axis.w) + uvec4_bytes(
        m.w_axis.x,
        m.w_axis.y,
        m.w_axis.z,
        m.w_axis.w,
    )
}

impl Mat3 {
    /// A matrix from its three columns.
    pub fn from_cols(x_axis: UVec3, y_axis: UVec3, z_axis: UVec3) -> (r: Self)
        ensures
            r == (Mat3 { x_axis, y_axis, z_axis }),
    {
        Mat3 { x_axis, y_axis, z_axis }
    }
}

impl Mat4 {
    /// A matrix from its four columns.
    pub fn from_cols(x_axis: UVec4, y_axis: UVec4, z_axis: UVec4, w_axis: UVec4) -> (r: Self)
        ensures
            r == (Mat4 { x_axis, y_axis, z_axis, w_axis }),
    {
        Mat4 { x_axis, y_axis, z_axis, w_axis }
    }
}

impl AsStd140 for Mat3 {
    open spec fn std140_bytes_spec(&self) -> Seq<u8> {
        mat3_bytes(*self)
    }

    open spec fn std140_alignment_spec(&self) -> int {
        16
    }

    fn as_std140(&self) -> (r: Std140Bytes) {
        proof {
            lemma_auto_spec_u32_to_from_le_bytes();
        }
        let mut buf = Std140Bytes::new();
        buf.write(&self.x_axis);
        buf.write(&self.y_axis);
        buf.write(&self.z_axis);
        proof {
            assert(buf.bytes_spec() =~= mat3_bytes(*self));
        }
        buf
    }
}

impl AsStd430 for Mat3 {
    open spec fn std430_bytes_spec(&self) -> Seq<u8> {
        mat3_bytes(*self)
    }

    open spec fn std430_alignment_spec(&self) -> int {
        16
    }

    fn as_std430(&self) -> (r: Std430Bytes) {
        proof {
            lemma_auto_spec_u32_to_from_le_bytes();
        }
        let mut buf = Std430Bytes::new();
        buf.write(&self.x_axis);
        buf.write(&self.y_axis);
        buf.write(&self.z_axis);
        proof {
            assert(buf.bytes_spec() =~= mat3_bytes(*self));
        }
        buf
    }
}

impl AsStd140 for Mat4 {
    open spec fn std140_bytes_spec(&self) -> Seq<u8> {
        mat4_bytes(*self)
    }

    open spec fn std140_alignment_spec(&self) -> int {
        16
    }

    fn as_std140(&self) -> (r: Std140Bytes) {
        proof {
            lemma_auto_spec_u32_to_from_le_bytes();
        }
        let mut buf = Std140Bytes::new();
        buf.write(&self.x_axis);
        buf.write(&self.y_axis);
        buf.write(&self.z_axis);
        buf.write(&self.w_axis);
        proof {
            assert(buf.bytes_spec() =~= mat4_bytes(*self));
        }
        buf
    }
}

impl AsStd430 for Mat4 {
    open spec fn std430_bytes_spec(&self) -> Seq<u8> {
        mat4_bytes(*self)
    }

    open spec fn std430_alignment_spec(&self) -> int {
        16
    }

    fn as_std430(&self) -> (r: Std430Bytes) {
        proof {
            lemma_auto_spec_u32_to_from_le_bytes();
        }
        let mut buf = Std430Bytes::new();
        buf.write(&self.x_axis);
        buf.write(&self.y_axis);
        buf.write(&self.z_axis);
        buf.write(&self.w_axis);
        proof {
            assert(buf.bytes_spec() =~= mat4_bytes(*self));
        }
        buf
    }
}

impl Std140ArrayElement for Mat3 {
    open spec fn spec_stride140() -> int {
        48
    }

    proof fn lemma_stride140_unit() {
    }

    proof fn lemma_stride140_covers(&self) {
        lemma_auto_spec_u32_to_from_le_bytes();
    }

    fn stride140() -> (r: usize) {
        48
    }
}

impl Std430ArrayElement for Mat3 {
    open spec fn spec_stride430() -> int {
        48
    }

    open spec fn spec_align430() -> int {
        16
    }

    proof fn lemma_stride430_unit() {
    }

    proof fn lemma_stride430_covers(&self) {
        lemma_auto_spec_u32_to_from_le_bytes();
    }

    fn stride430() -> (r: usize) {
        48
    }

    fn align430() -> (r: usize) {
        16
    }
}

impl Std140ArrayElement for Mat4 {
    open spec fn spec_stride140() -> int {
        64
    }

    proof fn lemma_stride140_unit() {
    }

    proof fn lemma_stride140_covers(&self) {
        lemma_auto_spec_u32_to_from_le_bytes();
    }

    fn stride140() -> (r: usize) {
        64
    }
}

impl Std430ArrayElement for Mat4 {
    open spec fn spec_stride430() -> int {
        64
    }

    open spec fn spec_align430() -> int {
        16
    }

    proof fn lemma_stride430_unit() {
    }

    proof fn lemma_stride430_covers(&self) {
        lemma_auto_spec_u32_to_from_le_bytes();
    }

    fn stride430() -> (r: usize) {
        64
    }

    fn align430() -> (r: usize) {
        16
    }
}

} // verus!
