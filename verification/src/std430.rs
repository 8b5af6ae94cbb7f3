//! The std430 facade: a byte buffer constrained to the std430 storage
//! buffer layout convention, in which every array element is padded only
//! to its own base alignment, with no forced multiple of 16.

use vstd::prelude::*;
use vstd::math::max;
use crate::alignment::{pad_len, padded_to, zeros};
use crate::buffer::{
    array_write_alignment, array_write_bytes, encodings_of, AsGpuBytes, GpuBytes, Layout,
};

verus! {

/// Values encodable under the std430 layout convention.
pub trait AsStd430 {
    /// The byte image of this value under std430.
    spec fn std430_bytes_spec(&self) -> Seq<u8>;

    /// Its std430 base alignment.
    spec fn std430_alignment_spec(&self) -> int;

    /// Produces this value's std430 byte representation.
    fn as_std430(&self) -> (r: Std430Bytes)
        ensures
            r.bytes_spec() == self.std430_bytes_spec(),
            r.alignment_spec() == self.std430_alignment_spec(),
            r.wf(),
    ;
}

/// The encodings a sequence of std430 values contributes to an array write.
pub open spec fn std430_encodings_of<T: AsStd430>(data: Seq<T>) -> Seq<(Seq<u8>, int)> {
    data.map_values(|e: T| (e.std430_bytes_spec(), e.std430_alignment_spec()))
}

/// A byte buffer being laid out under the std430 convention.
#[derive(Debug, Clone)]
pub struct Std430Bytes {
    gpu_bytes: GpuBytes,
}

impl Std430Bytes {
    /// The accumulated byte sequence.
    pub closed spec fn bytes_spec(&self) -> Seq<u8> {
        self.gpu_bytes.bytes_spec()
    }

    /// The running required alignment.
    pub closed spec fn alignment_spec(&self) -> int {
        self.gpu_bytes.alignment_spec()
    }

    /// The wrapped accumulator carries the std430 layout tag.
    pub closed spec fn wf(&self) -> bool {
        self.gpu_bytes.layout_spec() == Layout::Std430
    }

    /// Creates an empty std430 buffer.
    pub fn new() -> (r: Self)
        ensures
            r.bytes_spec() == Seq::<u8>::empty(),
            r.alignment_spec() == 0,
            r.wf(),
    {
        Std430Bytes { gpu_bytes: GpuBytes::new(Layout::Std430) }
    }

    /// Builds an encoded std430 value directly from its bytes and base
    /// alignment.
    pub(crate) fn from_raw(bytes: Vec<u8>, alignment: usize) -> (r: Self)
        ensures
            r.bytes_spec() == bytes@,
            r.alignment_spec() == alignment as int,
            r.wf(),
    {
        Std430Bytes { gpu_bytes: GpuBytes::from_parts(bytes, alignment, Layout::Std430) }
    }

    /// Writes one encodable value: padding up to the value's base alignment
    /// first, then the value's bytes.
    pub fn write<T: AsStd430>(&mut self, data: &T) -> (ret: &mut Self)
        requires
            data.std430_alignment_spec() >= 1,
        ensures
            ret.bytes_spec() == old(self).bytes_spec() + zeros(
                pad_len(old(self).bytes_spec().len() as int, data.std430_alignment_spec()),
            ) + data.std430_bytes_spec(),
            ret.alignment_spec() == max(old(self).alignment_spec(), data.std430_alignment_spec()),
            ret.wf() == old(self).wf(),
            *final(self) == *final(ret),
    {
        let enc = data.as_std430();
        self.gpu_bytes.write(&enc.gpu_bytes);
        self
    }

    /// Writes a homogeneous array of values; every element's byte block is
    /// padded out to its own base alignment before it is
    /// appended as a whole unit.
    pub fn write_array<T: AsStd430>(&mut self, data: &[T]) -> (ret: &mut Self)
        requires
            old(self).wf(),
            forall|i: int| 0 <= i < data@.len() ==> 1 <= #[trigger] data@[i].std430_alignment_spec(),
            forall|i: int| 0 <= i < data@.len() ==> #[trigger] data@[i].std430_alignment_spec()
                + 15 <= usize::MAX,
        ensures
            ret.bytes_spec() == array_write_bytes(
                old(self).bytes_spec(),
                std430_encodings_of(data@),
                Layout::Std430,
            ),
            ret.alignment_spec() == array_write_alignment(
                old(self).alignment_spec(),
                std430_encodings_of(data@),
                Layout::Std430,
            ),
            ret.wf(),
            *final(self) == *final(ret),
    {
        let mut encs: Vec<GpuBytes> = Vec::new();
        let mut i: usize = 0;
        while i < data.len()
            invariant
                i <= data@.len(),
                encs@.len() == i,
                forall|j: int| 0 <= j < i ==> #[trigger] encs@[j].bytes_spec()
                    == data@[j].std430_bytes_spec(),
                forall|j: int| 0 <= j < i ==> #[trigger] encs@[j].alignment_spec()
                    == data@[j].std430_alignment_spec(),
                forall|j: int| 0 <= j < data@.len() ==> 1 <= #[trigger] data@[j].std430_alignment_spec(),
                forall|j: int| 0 <= j < data@.len() ==> #[trigger] data@[j].std430_alignment_spec()
                    + 15 <= usize::MAX,
            decreases data@.len() - i,
        {
            let enc = data[i].as_std430();
            encs.push(enc.gpu_bytes);
            i = i + 1;
        }
        proof {
            assert forall|j: int| 0 <= j < data@.len() implies encodings_of(encs@)[j]
                == std430_encodings_of(data@)[j] by {
                assert(encs@[j].gpu_bytes_spec() == data@[j].std430_bytes_spec());
                assert(encs@[j].gpu_alignment_spec() == data@[j].std430_alignment_spec());
            }
            assert(encodings_of(encs@) =~= std430_encodings_of(data@));
        }
        self.gpu_bytes.write_array(encs.as_slice());
        self
    }

    /// Pads the buffer to its current running alignment; afterwards the
    /// buffer length is an exact multiple of that alignment.
    pub fn align(&mut self) -> (ret: &mut Self)
        requires
            old(self).alignment_spec() >= 1,
        ensures
            ret.bytes_spec() == padded_to(old(self).bytes_spec(), old(self).alignment_spec()),
            ret.alignment_spec() == old(self).alignment_spec(),
            ret.bytes_spec().len() as int % ret.alignment_spec() == 0,
            ret.wf() == old(self).wf(),
            *final(self) == *final(ret),
    {
        self.gpu_bytes.align();
        self
    }

    /// Pads the buffer to an explicit boundary and resets the running
    /// alignment to exactly `align`.
    pub fn align_to(&mut self, align: usize) -> (ret: &mut Self)
        requires
            align >= 1,
        ensures
            ret.bytes_spec() == padded_to(old(self).bytes_spec(), align as int),
            ret.alignment_spec() == align as int,
            ret.wf() == old(self).wf(),
            *final(self) == *final(ret),
    {
        self.gpu_bytes.align_to(align);
        self
    }

    /// The accumulated bytes, read-only.
    pub fn as_slice(&self) -> (r: &[u8])
        ensures
            r@ == self.bytes_spec(),
    {
        self.gpu_bytes.as_slice()
    }
}

impl Default for Std430Bytes {
    /// An empty std430 buffer, exactly as `new` builds it.
    fn default() -> (r: Self)
        ensures
            r.bytes_spec() == Seq::<u8>::empty(),
            r.alignment_spec() == 0,
            r.wf(),
    {
        Self::new()
    }
}

impl AsStd430 for Std430Bytes {
    open spec fn std430_bytes_spec(&self) -> Seq<u8> {
        self.bytes_spec()
    }

    open spec fn std430_alignment_spec(&self) -> int {
        self.alignment_spec()
    }

    fn as_std430(&self) -> (r: Std430Bytes) {
        Std430Bytes { gpu_bytes: self.gpu_bytes.duplicate_for(Layout::Std430) }
    }
}

} // verus!
