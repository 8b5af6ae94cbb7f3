//! Scalar encodings: every 4-byte numeric scalar occupies four bytes at a
//! base alignment of 4 under both layout conventions.
//!
//! Scalars are encoded from their 32-bit words in little-endian byte
//! order, the order GPU buffer uploads assume. Signed words contribute
//! their two's-complement bit pattern; floating-point data enters the
//! library as bit patterns (`u32` words) produced by the caller.

use vstd::prelude::*;
use vstd::bytes::{lemma_auto_spec_u32_to_from_le_bytes, spec_u32_to_le_bytes, u32_to_le_bytes};
use crate::dyn_array::{Std140ArrayElement, Std430ArrayElement};
use crate::std140::{AsStd140, Std140Bytes};
use crate::std430::{AsStd430, Std430Bytes};

verus! {

/// The base alignment of every 4-byte scalar.
pub const SCALAR_ALIGN: usize = 4;

/// The four little-endian bytes of a signed word's two's-complement bit
/// pattern.
pub fn i32_to_le_bytes(x: i32) -> (r: Vec<u8>)
    ensures
        r@ == spec_u32_to_le_bytes(x as u32),
        r@.len() == 4,
{
    u32_to_le_bytes(#[verifier::truncate] (x as u32))
}

impl AsStd140 for u32 {
    open spec fn std140_bytes_spec(&self) -> Seq<u8> {
        spec_u32_to_le_bytes(*self)
    }

    open spec fn std140_alignment_spec(&self) -> int {
        SCALAR_ALIGN as int
    }

    fn as_std140(&self) -> (r: Std140Bytes) {
        Std140Bytes::from_raw(u32_to_le_bytes(*self), SCALAR_ALIGN)
    }
}

impl AsStd430 for u32 {
    open spec fn std430_bytes_spec(&self) -> Seq<u8> {
        spec_u32_to_le_bytes(*self)
    }

    open spec fn std430_alignment_spec(&self) -> int {
        SCALAR_ALIGN as int
    }

    fn as_std430(&self) -> (r: Std430Bytes) {
        Std430Bytes::from_raw(u32_to_le_bytes(*self), SCALAR_ALIGN)
    }
}

impl AsStd140 for i32 {
    open spec fn std140_bytes_spec(&self) -> Seq<u8> {
        spec_u32_to_le_bytes(*self as u32)
    }

    open spec fn std140_alignment_spec(&self) -> int {
        SCALAR_ALIGN as int
    }

    fn as_std140(&self) -> (r: Std140Bytes) {
        Std140Bytes::from_raw(i32_to_le_bytes(*self), SCALAR_ALIGN)
    }
}

impl AsStd430 for i32 {
    open spec fn std430_bytes_spec(&self) -> Seq<u8> {
        spec_u32_to_le_bytes(*self as u32)
    }

    open spec fn std430_alignment_spec(&self) -> int {
        SCALAR_ALIGN as int
    }

    fn as_std430(&self) -> (r: Std430Bytes) {
        Std430Bytes::from_raw(i32_to_le_bytes(*self), SCALAR_ALIGN)
    }
}

impl Std140ArrayElement for u32 {
    open spec fn spec_stride140() -> int {
        16
    }

    proof fn lemma_stride140_unit() {
    }

    proof fn lemma_stride140_covers(&self) {
        lemma_auto_spec_u32_to_from_le_bytes();
    }

    fn stride140() -> (r: usize) {
        16
    }
}

impl Std430ArrayElement for u32 {
    open spec fn spec_stride430() -> int {
        4
    }

    open spec fn spec_align430() -> int {
        4
    }

    proof fn lemma_stride430_unit() {
    }

    proof fn lemma_stride430_covers(&self) {
        lemma_auto_spec_u32_to_from_le_bytes();
    }

    fn stride430() -> (r: usize) {
        4
    }

    fn align430() -> (r: usize) {
        4
    }
}

impl Std140ArrayElement for i32 {
    open spec fn spec_stride140() -> int {
        16
    }

    proof fn lemma_stride140_unit() {
    }

    proof fn lemma_stride140_covers(&self) {
        lemma_auto_spec_u32_to_from_le_bytes();
    }

    fn stride140() -> (r: usize) {
        16
    }
}

impl Std430ArrayElement for i32 {
    open spec fn spec_stride430() -> int {
        4
    }

    open spec fn spec_align430() -> int {
        4
    }

    proof fn lemma_stride430_unit() {
    }

    proof fn lemma_stride430_covers(&self) {
        lemma_auto_spec_u32_to_from_le_bytes();
    }

    fn stride430() -> (r: usize) {
        4
    }

    fn align430() -> (r: usize) {
        4
    }
}

} // verus!
