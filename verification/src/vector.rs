//! Vector encodings: 2-, 3- and 4-component vectors of 32-bit words.
//!
//! Component words are laid out back to back in little-endian byte order.
//! Base alignments come from the fixed per-kind table: 8 bytes for a
//! 2-component vector, 16 bytes for 3- and 4-component vectors. A
//! 3-component vector still occupies only 12 data bytes; the gap up to its
//! 16-byte boundary appears as padding written by the buffer, not as part
//! of the vector's own bytes.
//!
//! For floating-point vectors the caller passes each component's bit
//! pattern as a word; signed vectors contribute two's-complement words.

use vstd::prelude::*;
use vstd::bytes::{lemma_auto_spec_u32_to_from_le_bytes, spec_u32_to_le_bytes, u32_to_le_bytes};
use crate::buffer::extend_bytes;
use crate::dyn_array::{Std140ArrayElement, Std430ArrayElement};
use crate::scalar::i32_to_le_bytes;
use crate::std140::{AsStd140, Std140Bytes};
use crate::std430::{AsStd430, Std430Bytes};

verus! {

/// The base alignment of a 2-component vector.
pub const VEC2_ALIGN: usize = 8;

/// The base alignment of a 3- or 4-component vector.
pub const VEC34_ALIGN: usize = 16;

/// A 2-component vector of unsigned 32-bit words.
#[derive(Clone, Copy, PartialEq, Eq, Structural, Debug)]
pub struct UVec2 {
    pub x: u32,
    pub y: u32,
}

/// A 3-component vector of unsigned 32-bit words.
#[derive(Clone, Copy, PartialEq, Eq, Structural, Debug)]
pub struct UVec3 {
    pub x: u32,
    pub y: u32,
    pub z: u32,
}

/// A 4-component vector of unsigned 32-bit words.
#[derive(Clone, Copy, PartialEq, Eq, Structural, Debug)]
pub struct UVec4 {
    pub x: u32,
    pub y: u32,
    pub z: u32,
    pub w: u32,
}

/// A 2-component vector of signed 32-bit words.
#[derive(Clone, Copy, PartialEq, Eq, Structural, Debug)]
pub struct IVec2 {
    pub x: i32,
    pub y: i32,
}

/// A 3-component vector of signed 32-bit words.
#[derive(Clone, Copy, PartialEq, Eq, Structural, Debug)]
pub struct IVec3 {
    pub x: i32,
    pub y: i32,
    pub z: i32,
}

/// A 4-component vector of signed 32-bit words.
#[derive(Clone, Copy, PartialEq, Eq, Structural, Debug)]
pub struct IVec4 {
    pub x: i32,
    pub y: i32,
    pub z: i32,
    pub w: i32,
}

/// The back-to-back little-endian bytes of two unsigned words.
pub open spec fn uvec2_bytes(x: u32, y: u32) -> Seq<u8> {
    spec_u32_to_le_bytes(x) + spec_u32_to_le_bytes(y)
}

/// The back-to-back little-endian bytes of three unsigned words.
pub open spec fn uvec3_bytes(x: u32, y: u32, z: u32) -> Seq<u8> {
    spec_u32_to_le_bytes(x) + spec_u32_to_le_bytes(y) + spec_u32_to_le_bytes(z)
}

/// The back-to-back little-endian bytes of four unsigned words.
pub open spec fn uvec4_bytes(x: u32, y: u32, z: u32, w: u32) -> Seq<u8> {
    spec_u32_to_le_bytes(x) + spec_u32_to_le_bytes(y) + spec_u32_to_le_bytes(z)
        + spec_u32_to_le_bytes(w)
}

impl UVec2 {
    /// A vector from its two components.
    pub fn new(x: u32, y: u32) -> (r: Self)
        ensures
            r == (UVec2 { x, y }),
    {
        UVec2 { x, y }
    }

    /// A vector with every component equal to `v`.
    pub fn splat(v: u32) -> (r: Self)
        ensures
            r == (UVec2 { x: v, y: v }),
    {
        UVec2 { x: v, y: v }
    }

    /// This vector's encoded bytes: both words, little endian.
    fn to_bytes(&self) -> (r: Vec<u8>)
        ensures
            r@ == uvec2_bytes(self.x, self.y),
    {
        let mut bytes = u32_to_le_bytes(self.x);
        let tail = u32_to_le_bytes(self.y);
        extend_bytes(&mut bytes, tail.as_slice());
        bytes
    }
}

impl UVec3 {
    /// A vector from its three components.
    pub fn new(x: u32, y: u32, z: u32) -> (r: Self)
        ensures
            r == (UVec3 { x, y, z }),
    {
        UVec3 { x, y, z }
    }

    /// A vector with every component equal to `v`.
    pub fn splat(v: u32) -> (r: Self)
        ensures
            r == (UVec3 { x: v, y: v, z: v }),
    {
        UVec3 { x: v, y: v, z: v }
    }

    /// This vector's encoded bytes: all three words, little endian.
    fn to_bytes(&self) -> (r: Vec<u8>)
        ensures
            r@ == uvec3_bytes(self.x, self.y, self.z),
    {
        let mut bytes = u32_to_le_bytes(self.x);
        let mid = u32_to_le_bytes(self.y);
        let tail = u32_to_le_bytes(self.z);
        extend_bytes(&mut bytes, mid.as_slice());
        extend_bytes(&mut bytes, tail.as_slice());
        bytes
    }
}

impl UVec4 {
    /// A vector from its four components.
    pub fn new(x: u32, y: u32, z: u32, w: u32) -> (r: Self)
        ensures
            r == (UVec4 { x, y, z, w }),
    {
        UVec4 { x, y, z, w }
    }

    /// A vector with every component equal to `v`.
    pub fn splat(v: u32) -> (r: Self)
        ensures
            r == (UVec4 { x: v, y: v, z: v, w: v }),
    {
        UVec4 { x: v, y: v, z: v, w: v }
    }

    /// This vector's encoded bytes: all four words, little endian.
    fn to_bytes(&self) -> (r: Vec<u8>)
        ensures
            r@ == uvec4_bytes(self.x, self.y, self.z, self.w),
    {
        let mut bytes = u32_to_le_bytes(self.x);
        let b1 = u32_to_le_bytes(self.y);
        let b2 = u32_to_le_bytes(self.z);
        let b3 = u32_to_le_bytes(self.w);
        extend_bytes(&mut bytes, b1.as_slice());
        extend_bytes(&mut bytes, b2.as_slice());
        extend_bytes(&mut bytes, b3.as_slice());
        bytes
    }
}

impl IVec2 {
    /// A vector from its two components.
    pub fn new(x: i32, y: i32) -> (r: Self)
        ensures
            r == (IVec2 { x, y }),
    {
        IVec2 { x, y }
    }

    /// A vector with every component equal to `v`.
    pub fn splat(v: i32) -> (r: Self)
        ensures
            r == (IVec2 { x: v, y: v }),
    {
        IVec2 { x: v, y: v }
    }

    /// This vector's encoded bytes: both words, little endian.
    fn to_bytes(&self) -> (r: Vec<u8>)
        ensures
            r@ == uvec2_bytes(self.x as u32, self.y as u32),
    {
        let mut bytes = i32_to_le_bytes(self.x);
        let tail = i32_to_le_bytes(self.y);
        extend_bytes(&mut bytes, tail.as_slice());
        bytes
    }
}

impl IVec3 {
    /// A vector from its three components.
    pub fn new(x: i32, y: i32, z: i32) -> (r: Self)
        ensures
            r == (IVec3 { x, y, z }),
    {
        IVec3 { x, y, z }
    }

    /// A vector with every component equal to `v`.
    pub fn splat(v: i32) -> (r: Self)
        ensures
            r == (IVec3 { x: v, y: v, z: v }),
    {
        IVec3 { x: v, y: v, z: v }
    }

    /// This vector's encoded bytes: all three words, little endian.
    fn to_bytes(&self) -> (r: Vec<u8>)
        ensures
            r@ == uvec3_bytes(self.x as u32, self.y as u32, self.z as u32),
    {
        let mut bytes = i32_to_le_bytes(self.x);
        let mid = i32_to_le_bytes(self.y);
        let tail = i32_to_le_bytes(self.z);
        extend_bytes(&mut bytes, mid.as_slice());
        extend_bytes(&mut bytes, tail.as_slice());
        bytes
    }
}

impl IVec4 {
    /// A vector from its four components.
    pub fn new(x: i32, y: i32, z: i32, w: i32) -> (r: Self)
        ensures
            r == (IVec4 { x, y, z, w }),
    {
        IVec4 { x, y, z, w }
    }

    /// A vector with every component equal to `v`.
    pub fn splat(v: i32) -> (r: Self)
        ensures
            r == (IVec4 { x: v, y: v, z: v, w: v }),
    {
        IVec4 { x: v, y: v, z: v, w: v }
    }

    /// This vector's encoded bytes: all four words, little endian.
    fn to_bytes(&self) -> (r: Vec<u8>)
        ensures
            r@ == uvec4_bytes(self.x as u32, self.y as u32, self.z as u32, self.w as u32),
    {
        let mut bytes = i32_to_le_bytes(self.x);
        let b1 = i32_to_le_bytes(self.y);
        let b2 = i32_to_le_bytes(self.z);
        let b3 = i32_to_le_bytes(self.w);
        extend_bytes(&mut bytes, b1.as_slice());
        extend_bytes(&mut bytes, b2.as_slice());
        extend_bytes(&mut bytes, b3.as_slice());
        bytes
    }
}

impl AsStd140 for UVec2 {
    open spec fn std140_bytes_spec(&self) -> Seq<u8> {
        uvec2_bytes(self.x, self.y)
    }

    open spec fn std140_alignment_spec(&self) -> int {
        VEC2_ALIGN as int
    }

    fn as_std140(&self) -> (r: Std140Bytes) {
        Std140Bytes::from_raw(self.to_bytes(), VEC2_ALIGN)
    }
}

impl AsStd430 for UVec2 {
    open spec fn std430_bytes_spec(&self) -> Seq<u8> {
        uvec2_bytes(self.x, self.y)
    }

    open spec fn std430_alignment_spec(&self) -> int {
        VEC2_ALIGN as int
    }

    fn as_std430(&self) -> (r: Std430Bytes) {
        Std430Bytes::from_raw(self.to_bytes(), VEC2_ALIGN)
    }
}

impl AsStd140 for UVec3 {
    open spec fn std140_bytes_spec(&self) -> Seq<u8> {
        uvec3_bytes(self.x, self.y, self.z)
    }

    open spec fn std140_alignment_spec(&self) -> int {
        VEC34_ALIGN as int
    }

    fn as_std140(&self) -> (r: Std140Bytes) {
        Std140Bytes::from_raw(self.to_bytes(), VEC34_ALIGN)
    }
}

impl AsStd430 for UVec3 {
    open spec fn std430_bytes_spec(&self) -> Seq<u8> {
        uvec3_bytes(self.x, self.y, self.z)
    }

    open spec fn std430_alignment_spec(&self) -> int {
        VEC34_ALIGN as int
    }

    fn as_std430(&self) -> (r: Std430Bytes) {
        Std430Bytes::from_raw(self.to_bytes(), VEC34_ALIGN)
    }
}

impl AsStd140 for UVec4 {
    open spec fn std140_bytes_spec(&self) -> Seq<u8> {
        uvec4_bytes(self.x, self.y, self.z, self.w)
    }

    open spec fn std140_alignment_spec(&self) -> int {
        VEC34_ALIGN as int
    }

    fn as_std140(&self) -> (r: Std140Bytes) {
        Std140Bytes::from_raw(self.to_bytes(), VEC34_ALIGN)
    }
}

impl AsStd430 for UVec4 {
    open spec fn std430_bytes_spec(&self) -> Seq<u8> {
        uvec4_bytes(self.x, self.y, self.z, self.w)
    }

    open spec fn std430_alignment_spec(&self) -> int {
        VEC34_ALIGN as int
    }

    fn as_std430(&self) -> (r: Std430Bytes) {
        Std430Bytes::from_raw(self.to_bytes(), VEC34_ALIGN)
    }
}

impl AsStd140 for IVec2 {
    open spec fn std140_bytes_spec(&self) -> Seq<u8> {
        uvec2_bytes(self.x as u32, self.y as u32)
    }

    open spec fn std140_alignment_spec(&self) -> int {
        VEC2_ALIGN as int
    }

    fn as_std140(&self) -> (r: Std140Bytes) {
        Std140Bytes::from_raw(self.to_bytes(), VEC2_ALIGN)
    }
}

impl AsStd430 for IVec2 {
    open spec fn std430_bytes_spec(&self) -> Seq<u8> {
        uvec2_bytes(self.x as u32, self.y as u32)
    }

    open spec fn std430_alignment_spec(&self) -> int {
        VEC2_ALIGN as int
    }

    fn as_std430(&self) -> (r: Std430Bytes) {
        Std430Bytes::from_raw(self.to_bytes(), VEC2_ALIGN)
    }
}

impl AsStd140 for IVec3 {
    open spec fn std140_bytes_spec(&self) -> Seq<u8> {
        uvec3_bytes(self.x as u32, self.y as u32, self.z as u32)
    }

    open spec fn std140_alignment_spec(&self) -> int {
        VEC34_ALIGN as int
    }

    fn as_std140(&self) -> (r: Std140Bytes) {
        Std140Bytes::from_raw(self.to_bytes(), VEC34_ALIGN)
    }
}

impl AsStd430 for IVec3 {
    open spec fn std430_bytes_spec(&self) -> Seq<u8> {
        uvec3_bytes(self.x as u32, self.y as u32, self.z as u32)
    }

    open spec fn std430_alignment_spec(&self) -> int {
        VEC34_ALIGN as int
    }

    fn as_std430(&self) -> (r: Std430Bytes) {
        Std430Bytes::from_raw(self.to_bytes(), VEC34_ALIGN)
    }
}

impl AsStd140 for IVec4 {
    open spec fn std140_bytes_spec(&self) -> Seq<u8> {
        uvec4_bytes(self.x as u32, self.y as u32, self.z as u32, self.w as u32)
    }

    open spec fn std140_alignment_spec(&self) -> int {
        VEC34_ALIGN as int
    }

    fn as_std140(&self) -> (r: Std140Bytes) {
        Std140Bytes::from_raw(self.to_bytes(), VEC34_ALIGN)
    }
}

impl AsStd430 for IVec4 {
    open spec fn std430_bytes_spec(&self) -> Seq<u8> {
        uvec4_bytes(self.x as u32, self.y as u32, self.z as u32, self.w as u32)
    }

    open spec fn std430_alignment_spec(&self) -> int {
        VEC34_ALIGN as int
    }

    fn as_std430(&self) -> (r: Std430Bytes) {
        Std430Bytes::from_raw(self.to_bytes(), VEC34_ALIGN)
    }
}

impl Std140ArrayElement for UVec2 {
    open spec fn spec_stride140() -> int {
        16
    }

    proof fn lemma_stride140_unit() {
    }

    proof fn lemma_stride140_covers(&self) {
        lemma_auto_spec_u32_to_from_le_bytes();
    }

    fn stride140() -> (r: usize) {
        16
    }
}

impl Std430ArrayElement for UVec2 {
    open spec fn spec_stride430() -> int {
        8
    }

    open spec fn spec_align430() -> int {
        8
    }

    proof fn lemma_stride430_unit() {
    }

    proof fn lemma_stride430_covers(&self) {
        lemma_auto_spec_u32_to_from_le_bytes();
    }

    fn stride430() -> (r: usize) {
        8
    }

    fn align430() -> (r: usize) {
        8
    }
}

impl Std140ArrayElement for UVec3 {
    open spec fn spec_stride140() -> int {
        16
    }

    proof fn lemma_stride140_unit() {
    }

    proof fn lemma_stride140_covers(&self) {
        lemma_auto_spec_u32_to_from_le_bytes();
    }

    fn stride140() -> (r: usize) {
        16
    }
}

impl Std430ArrayElement for UVec3 {
    open spec fn spec_stride430() -> int {
        16
    }

    open spec fn spec_align430() -> int {
        16
    }

    proof fn lemma_stride430_unit() {
    }

    proof fn lemma_stride430_covers(&self) {
        lemma_auto_spec_u32_to_from_le_bytes();
    }

    fn stride430() -> (r: usize) {
        16
    }

    fn align430() -> (r: usize) {
        16
    }
}

impl Std140ArrayElement for UVec4 {
    open spec fn spec_stride140() -> int {
        16
    }

    proof fn lemma_stride140_unit() {
    }

    proof fn lemma_stride140_covers(&self) {
        lemma_auto_spec_u32_to_from_le_bytes();
    }

    fn stride140() -> (r: usize) {
        16
    }
}

impl Std430ArrayElement for UVec4 {
    open spec fn spec_stride430() -> int {
        16
    }

    open spec fn spec_align430() -> int {
        16
    }

    proof fn lemma_stride430_unit() {
    }

    proof fn lemma_stride430_covers(&self) {
        lemma_auto_spec_u32_to_from_le_bytes();
    }

    fn stride430() -> (r: usize) {
        16
    }

    fn align430() -> (r: usize) {
        16
    }
}

impl Std140ArrayElement for IVec2 {
    open spec fn spec_stride140() -> int {
        16
    }

    proof fn lemma_stride140_unit() {
    }

    proof fn lemma_stride140_covers(&self) {
        lemma_auto_spec_u32_to_from_le_bytes();
    }

    fn stride140() -> (r: usize) {
        16
    }
}

impl Std430ArrayElement for IVec2 {
    open spec fn spec_stride430() -> int {
        8
    }

    open spec fn spec_align430() -> int {
        8
    }

    proof fn lemma_stride430_unit() {
    }

    proof fn lemma_stride430_covers(&self) {
        lemma_auto_spec_u32_to_from_le_bytes();
    }

    fn stride430() -> (r: usize) {
        8
    }

    fn align430() -> (r: usize) {
        8
    }
}

impl Std140ArrayElement for IVec3 {
    open spec fn spec_stride140() -> int {
        16
    }

    proof fn lemma_stride140_unit() {
    }

    proof fn lemma_stride140_covers(&self) {
        lemma_auto_spec_u32_to_from_le_bytes();
    }

    fn stride140() -> (r: usize) {
        16
    }
}

impl Std430ArrayElement for IVec3 {
    open spec fn spec_stride430() -> int {
        16
    }

    open spec fn spec_align430() -> int {
        16
    }

    proof fn lemma_stride430_unit() {
    }

    proof fn lemma_stride430_covers(&self) {
        lemma_auto_spec_u32_to_from_le_bytes();
    }

    fn stride430() -> (r: usize) {
        16
    }

    fn align430() -> (r: usize) {
        16
    }
}

impl Std140ArrayElement for IVec4 {
    open spec fn spec_stride140() -> int {
        16
    }

    proof fn lemma_stride140_unit() {
    }

    proof fn lemma_stride140_covers(&self) {
        lemma_auto_spec_u32_to_from_le_bytes();
    }

    fn stride140() -> (r: usize) {
        16
    }
}

impl Std430ArrayElement for IVec4 {
    open spec fn spec_stride430() -> int {
        16
    }

    open spec fn spec_align430() -> int {
        16
    }

    proof fn lemma_stride430_unit() {
    }

    proof fn lemma_stride430_covers(&self) {
        lemma_auto_spec_u32_to_from_le_bytes();
    }

    fn stride430() -> (r: usize) {
        16
    }

    fn align430() -> (r: usize) {
        16
    }
}

} // verus!
